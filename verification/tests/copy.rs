use ewasm_api::{
    calldata_acquire, calldata_copy, code_acquire, code_copy, external_code_acquire,
    external_code_copy, returndata_acquire, returndata_copy, to_host_size, unsafe_calldata_copy,
    unsafe_code_copy, unsafe_external_code_copy, unsafe_returndata_copy, Bytes20, CopyRequest,
    CopySource, Error,
};

fn address_of(byte: u8) -> Bytes20 {
    Bytes20 { bytes: [byte; 20] }
}

#[test]
fn calldata_copy_refuses_range_past_the_end() {
    assert_eq!(calldata_copy(12, 10, 5), Err(Error::OutOfBoundsCopy));
}

#[test]
fn calldata_copy_accepts_empty_tail() {
    let expected = CopyRequest { source: CopySource::CallData, offset: 12, length: 0, capacity: 0 };
    assert_eq!(calldata_copy(12, 12, 0), Ok(expected));
}

#[test]
fn calldata_copy_refuses_one_byte_at_the_end() {
    assert_eq!(calldata_copy(12, 12, 1), Err(Error::OutOfBoundsCopy));
}

#[test]
fn calldata_copy_refuses_start_past_the_end() {
    assert_eq!(calldata_copy(12, 13, 0), Err(Error::OutOfBoundsCopy));
    assert_eq!(calldata_copy(0, 1, 0), Err(Error::OutOfBoundsCopy));
}

#[test]
fn calldata_copy_does_not_wrap() {
    assert_eq!(calldata_copy(12, usize::MAX, 2), Err(Error::OutOfBoundsCopy));
    assert_eq!(calldata_copy(12, 2, usize::MAX), Err(Error::OutOfBoundsCopy));
    assert_eq!(calldata_copy(12, usize::MAX, usize::MAX), Err(Error::OutOfBoundsCopy));
    assert_eq!(calldata_copy(u32::MAX, usize::MAX, 1), Err(Error::OutOfBoundsCopy));
}

#[test]
fn calldata_copy_accepts_inner_range() {
    let expected = CopyRequest { source: CopySource::CallData, offset: 4, length: 8, capacity: 8 };
    assert_eq!(calldata_copy(12, 4, 8), Ok(expected));
    let expected = CopyRequest { source: CopySource::CallData, offset: 3, length: 2, capacity: 2 };
    assert_eq!(calldata_copy(12, 3, 2), Ok(expected));
}

#[test]
fn calldata_copy_accepts_largest_source() {
    let size: u32 = u32::MAX;
    let expected = CopyRequest {
        source: CopySource::CallData,
        offset: 0,
        length: u32::MAX,
        capacity: u32::MAX as usize,
    };
    assert_eq!(calldata_copy(size, 0, u32::MAX as usize), Ok(expected));
    let expected = CopyRequest {
        source: CopySource::CallData,
        offset: u32::MAX,
        length: 0,
        capacity: 0,
    };
    assert_eq!(calldata_copy(size, u32::MAX as usize, 0), Ok(expected));
}

#[test]
fn checked_copy_agrees_with_unchecked_copy_inside_the_source() {
    let size: u32 = 12;
    let address = address_of(0x5c);
    let mut from: usize = 0;
    while from <= 12 {
        let mut length: usize = 0;
        while from + length <= 12 {
            assert_eq!(calldata_copy(size, from, length), Ok(unsafe_calldata_copy(from, length)));
            assert_eq!(code_copy(size, from, length), Ok(unsafe_code_copy(from, length)));
            assert_eq!(
                external_code_copy(&address, size, from, length),
                Ok(unsafe_external_code_copy(&address, from, length))
            );
            assert_eq!(
                returndata_copy(size, from, length),
                Ok(unsafe_returndata_copy(from, length))
            );
            length += 1;
        }
        from += 1;
    }
}

#[test]
fn checked_copy_refuses_every_range_that_leaves_the_source() {
    let size: u32 = 12;
    let address = address_of(0x5c);
    let mut from: usize = 0;
    while from <= 20 {
        let mut length: usize = 0;
        while length <= 20 {
            if from + length > 12 {
                assert_eq!(calldata_copy(size, from, length), Err(Error::OutOfBoundsCopy));
                assert_eq!(code_copy(size, from, length), Err(Error::OutOfBoundsCopy));
                assert_eq!(
                    external_code_copy(&address, size, from, length),
                    Err(Error::OutOfBoundsCopy)
                );
                assert_eq!(returndata_copy(size, from, length), Err(Error::OutOfBoundsCopy));
            }
            length += 1;
        }
        from += 1;
    }
}

#[test]
fn accepted_range_keeps_offset_and_length() {
    let request = code_copy(1000, 250, 700).unwrap();
    assert_eq!(request.source, CopySource::Code);
    assert_eq!(request.offset, 250);
    assert_eq!(request.length, 700);
    assert_eq!(request.capacity, 700);
}

#[test]
fn code_copy_edges() {
    assert_eq!(code_copy(12, 10, 5), Err(Error::OutOfBoundsCopy));
    let expected = CopyRequest { source: CopySource::Code, offset: 12, length: 0, capacity: 0 };
    assert_eq!(code_copy(12, 12, 0), Ok(expected));
    assert_eq!(code_copy(12, 12, 1), Err(Error::OutOfBoundsCopy));
    let expected = CopyRequest { source: CopySource::Code, offset: 0, length: 0, capacity: 0 };
    assert_eq!(code_copy(0, 0, 0), Ok(expected));
}

#[test]
fn returndata_copy_edges() {
    assert_eq!(returndata_copy(12, 10, 5), Err(Error::OutOfBoundsCopy));
    let expected =
        CopyRequest { source: CopySource::ReturnData, offset: 12, length: 0, capacity: 0 };
    assert_eq!(returndata_copy(12, 12, 0), Ok(expected));
    assert_eq!(returndata_copy(12, 12, 1), Err(Error::OutOfBoundsCopy));
    let expected =
        CopyRequest { source: CopySource::ReturnData, offset: 10, length: 2, capacity: 2 };
    assert_eq!(returndata_copy(12, 10, 2), Ok(expected));
}

#[test]
fn external_code_copy_names_the_account() {
    let address = address_of(0xaa);
    let other = address_of(0xbb);
    let request = external_code_copy(&address, 64, 32, 32).unwrap();
    assert_eq!(request.source, CopySource::ExternalCode(address));
    assert_ne!(request.source, CopySource::ExternalCode(other));
    assert_eq!(request.offset, 32);
    assert_eq!(request.length, 32);
    assert_eq!(request.capacity, 32);
    assert_eq!(external_code_copy(&address, 64, 33, 32), Err(Error::OutOfBoundsCopy));
    let expected = CopyRequest {
        source: CopySource::ExternalCode(address),
        offset: 64,
        length: 0,
        capacity: 0,
    };
    assert_eq!(external_code_copy(&address, 64, 64, 0), Ok(expected));
}

#[test]
fn acquire_asks_for_the_whole_source() {
    let address = address_of(0x11);
    let expected = CopyRequest {
        source: CopySource::CallData,
        offset: 0,
        length: 12,
        capacity: 12,
    };
    assert_eq!(calldata_acquire(12), expected);
    let expected = CopyRequest {
        source: CopySource::Code,
        offset: 0,
        length: 4096,
        capacity: 4096,
    };
    assert_eq!(code_acquire(4096), expected);
    let expected = CopyRequest {
        source: CopySource::ExternalCode(address),
        offset: 0,
        length: 77,
        capacity: 77,
    };
    assert_eq!(external_code_acquire(&address, 77), expected);
    let expected = CopyRequest {
        source: CopySource::ReturnData,
        offset: 0,
        length: 1,
        capacity: 1,
    };
    assert_eq!(returndata_acquire(1), expected);
}

#[test]
fn acquire_is_the_checked_copy_of_everything() {
    let address = address_of(0x11);
    let sizes: [u32; 5] = [0, 1, 12, 65536, u32::MAX];
    for size in sizes {
        let all: usize = size as usize;
        assert_eq!(Ok(calldata_acquire(size)), calldata_copy(size, 0, all));
        assert_eq!(Ok(code_acquire(size)), code_copy(size, 0, all));
        assert_eq!(
            Ok(external_code_acquire(&address, size)),
            external_code_copy(&address, size, 0, all)
        );
        assert_eq!(Ok(returndata_acquire(size)), returndata_copy(size, 0, all));
        assert_eq!(calldata_acquire(size).length, size);
        assert_eq!(calldata_acquire(size).capacity, all);
    }
}

#[test]
fn acquire_of_an_empty_source_is_empty() {
    let expected = CopyRequest { source: CopySource::CallData, offset: 0, length: 0, capacity: 0 };
    assert_eq!(calldata_acquire(0), expected);
    let expected = CopyRequest {
        source: CopySource::ReturnData,
        offset: 0,
        length: 0,
        capacity: 0,
    };
    assert_eq!(returndata_acquire(0), expected);
}

#[test]
fn unchecked_copy_takes_any_range() {
    let expected = CopyRequest { source: CopySource::CallData, offset: 10, length: 5, capacity: 5 };
    assert_eq!(unsafe_calldata_copy(10, 5), expected);
    let expected = CopyRequest { source: CopySource::Code, offset: 0, length: 0, capacity: 0 };
    assert_eq!(unsafe_code_copy(0, 0), expected);
    let expected = CopyRequest {
        source: CopySource::ReturnData,
        offset: 7,
        length: 9,
        capacity: 9,
    };
    assert_eq!(unsafe_returndata_copy(7, 9), expected);
    let address = address_of(0x42);
    let expected = CopyRequest {
        source: CopySource::ExternalCode(address),
        offset: 1,
        length: 2,
        capacity: 2,
    };
    assert_eq!(unsafe_external_code_copy(&address, 1, 2), expected);
}

#[test]
fn unchecked_copy_hands_over_the_low_32_bits() {
    let request = unsafe_calldata_copy(usize::MAX, 3);
    assert_eq!(request.offset, u32::MAX);
    assert_eq!(request.length, 3);
    assert_eq!(request.capacity, 3);
    let request = unsafe_code_copy(3, usize::MAX);
    assert_eq!(request.offset, 3);
    assert_eq!(request.length, u32::MAX);
    assert_eq!(request.capacity, usize::MAX);
}

#[test]
fn host_size_keeps_what_fits() {
    assert_eq!(to_host_size(0), 0);
    assert_eq!(to_host_size(5), 5);
    assert_eq!(to_host_size(65536), 65536);
    assert_eq!(to_host_size(u32::MAX as usize), u32::MAX);
}

#[test]
fn host_size_is_the_low_32_bits() {
    assert_eq!(to_host_size(usize::MAX), u32::MAX);
    assert_eq!(to_host_size(usize::MAX - 1), u32::MAX - 1);
    let past: usize = (u32::MAX as usize).wrapping_add(6);
    assert_eq!(to_host_size(past), 5);
}
