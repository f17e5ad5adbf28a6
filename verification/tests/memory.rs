//! Buffers that cross the boundary: who owns them, and when.
use shared_core::fault::Fault;
use shared_core::memory::{assert_not_null, pack, unpack, Memory};

#[test]
fn pack_puts_the_address_high_and_the_length_low() {
    assert_eq!(pack(0, 0), 0);
    assert_eq!(pack(0, 5), 5);
    assert_eq!(pack(1, 0), 1 << 32);
    assert_eq!(pack(0x1234_5678, 0x9ABC_DEF0), 0x1234_5678_9ABC_DEF0);
    assert_eq!(pack(u32::MAX, u32::MAX), u64::MAX);
}

#[test]
fn unpack_takes_a_packed_number_apart() {
    assert_eq!(unpack(0x1234_5678_9ABC_DEF0), (0x1234_5678, 0x9ABC_DEF0));
    assert_eq!(unpack(0), (0, 0));
    assert_eq!(unpack(u64::MAX), (u32::MAX, u32::MAX));
    for (a, l) in [(1u32, 2u32), (7, 0), (0, 7), (u32::MAX, 1)] {
        assert_eq!(unpack(pack(a, l)), (a, l));
    }
}

#[test]
fn assert_not_null_refuses_zero_only() {
    assert_eq!(assert_not_null(0), Err(Fault::NullPointer));
    assert_eq!(assert_not_null(1), Ok(()));
    assert_eq!(assert_not_null(u32::MAX), Ok(()));
}

#[test]
fn allocate_then_deallocate_is_accepted() {
    let mut memory = Memory::new();
    for size in [0u32, 1, 16, 4096] {
        let address = memory.allocate(size).unwrap();
        assert_ne!(address, 0);
        assert_eq!(memory.deallocate(address, size), Ok(()));
    }
}

#[test]
fn an_allocated_buffer_holds_zeros() {
    let mut memory = Memory::new();
    let address = memory.allocate(4).unwrap();
    assert_eq!(memory.read(address, 4), Ok(vec![0, 0, 0, 0]));
    let empty = memory.allocate(0).unwrap();
    assert_eq!(memory.read(empty, 0), Ok(vec![]));
}

#[test]
fn live_buffers_have_different_addresses() {
    let mut memory = Memory::new();
    let a = memory.allocate(1).unwrap();
    let b = memory.allocate(1).unwrap();
    let c = memory.allocate(0).unwrap();
    assert_ne!(a, b);
    assert_ne!(a, c);
    assert_ne!(b, c);
}

#[test]
fn deallocating_twice_is_refused() {
    let mut memory = Memory::new();
    let address = memory.allocate(8).unwrap();
    assert_eq!(memory.deallocate(address, 8), Ok(()));
    assert_eq!(memory.deallocate(address, 8), Err(Fault::UnknownRegion));
}

#[test]
fn deallocating_what_was_never_allocated_is_refused() {
    let mut memory = Memory::new();
    assert_eq!(memory.deallocate(1, 0), Err(Fault::UnknownRegion));
    assert_eq!(memory.deallocate(12345, 8), Err(Fault::UnknownRegion));
    assert_eq!(memory.deallocate(u32::MAX, 8), Err(Fault::UnknownRegion));
    let address = memory.allocate(8).unwrap();
    assert_eq!(memory.deallocate(address + 1, 8), Err(Fault::UnknownRegion));
    assert_eq!(memory.read(address, 8), Ok(vec![0; 8]));
}

#[test]
fn deallocating_null_is_refused() {
    let mut memory = Memory::new();
    assert_eq!(memory.deallocate(0, 0), Err(Fault::NullPointer));
    assert_eq!(memory.absorb(0, 0), Err(Fault::NullPointer));
    assert_eq!(memory.read(0, 0), Err(Fault::NullPointer));
    assert_eq!(memory.write(0, &[]), Err(Fault::NullPointer));
}

#[test]
fn deallocating_with_another_size_is_refused_and_changes_nothing() {
    let mut memory = Memory::new();
    let address = memory.allocate(8).unwrap();
    assert_eq!(memory.deallocate(address, 7), Err(Fault::SizeMismatch));
    assert_eq!(memory.deallocate(address, 9), Err(Fault::SizeMismatch));
    assert_eq!(memory.deallocate(address, 8), Ok(()));
}

#[test]
fn the_host_fills_what_it_allocated_and_the_call_absorbs_it() {
    let mut memory = Memory::new();
    let address = memory.allocate(3).unwrap();
    assert_eq!(memory.write(address, &[7, 8, 9]), Ok(()));
    assert_eq!(memory.absorb(address, 3), Ok(vec![7, 8, 9]));
    // absorbed is consumed: the host may neither reuse nor free it
    assert_eq!(memory.absorb(address, 3), Err(Fault::UnknownRegion));
    assert_eq!(memory.deallocate(address, 3), Err(Fault::UnknownRegion));
    assert_eq!(memory.read(address, 3), Err(Fault::UnknownRegion));
}

#[test]
fn write_needs_the_length_of_the_buffer() {
    let mut memory = Memory::new();
    let address = memory.allocate(3).unwrap();
    assert_eq!(memory.write(address, &[1, 2]), Err(Fault::SizeMismatch));
    assert_eq!(memory.write(address, &[1, 2, 3, 4]), Err(Fault::SizeMismatch));
    assert_eq!(memory.write(address + 1, &[1, 2, 3]), Err(Fault::UnknownRegion));
    assert_eq!(memory.read(address, 3), Ok(vec![0, 0, 0]));
}

#[test]
fn absorb_with_another_length_is_refused_and_changes_nothing() {
    let mut memory = Memory::new();
    let address = memory.allocate(2).unwrap();
    assert_eq!(memory.absorb(address, 3), Err(Fault::SizeMismatch));
    assert_eq!(memory.absorb(address, 2), Ok(vec![0, 0]));
}

#[test]
fn produce_returns_address_and_length_packed() {
    let mut memory = Memory::new();
    let value = memory.produce(vec![1, 2, 3, 4, 5]).unwrap();
    let (address, len) = unpack(value);
    assert_ne!(address, 0);
    assert_eq!(len, 5);
    assert_eq!(value, ((address as u64) << 32) | 5);
    assert_eq!(memory.read(address, len), Ok(vec![1, 2, 3, 4, 5]));
    assert_eq!(memory.deallocate(address, len), Ok(()));
    assert_eq!(memory.deallocate(address, len), Err(Fault::UnknownRegion));
}

#[test]
fn produce_of_no_bytes_still_gives_a_buffer() {
    let mut memory = Memory::new();
    let (address, len) = unpack(memory.produce(vec![]).unwrap());
    assert_ne!(address, 0);
    assert_eq!(len, 0);
    assert_eq!(memory.deallocate(address, 0), Ok(()));
}

#[test]
fn giving_up_one_buffer_leaves_the_others() {
    let mut memory = Memory::new();
    let a = memory.allocate(1).unwrap();
    let (b, b_len) = unpack(memory.produce(vec![5, 6]).unwrap());
    let c = memory.allocate(3).unwrap();
    memory.write(a, &[1]).unwrap();
    memory.write(c, &[7, 8, 9]).unwrap();
    assert_eq!(memory.deallocate(b, b_len), Ok(()));
    assert_eq!(memory.read(a, 1), Ok(vec![1]));
    assert_eq!(memory.read(c, 3), Ok(vec![7, 8, 9]));
    // a freed address may be given out again, and is then a fresh buffer
    let d = memory.allocate(2).unwrap();
    assert_eq!(memory.read(d, 2), Ok(vec![0, 0]));
    assert_eq!(memory.read(a, 1), Ok(vec![1]));
    assert_eq!(memory.read(c, 3), Ok(vec![7, 8, 9]));
}

#[test]
fn read_is_a_copy_and_takes_nothing() {
    let mut memory = Memory::new();
    let (address, len) = unpack(memory.produce(vec![4, 2]).unwrap());
    assert_eq!(memory.read(address, len), Ok(vec![4, 2]));
    assert_eq!(memory.read(address, len), Ok(vec![4, 2]));
    assert_eq!(memory.read(address, len + 1), Err(Fault::SizeMismatch));
}
