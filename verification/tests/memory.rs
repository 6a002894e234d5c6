use wasmlanche_memory::handle::{decode, encode};
use wasmlanche_memory::memory::{
    allocate, check_request, deserialize_block, from_host_ptr, reclaim, settle, to_host_ptr,
    track_allocation, AllocationFailure, Pointer, Region,
};
use wasmlanche_memory::state::Error;
use wasmlanche_memory::tracker::Tracker;

const BLOCK: usize = 0x0001_0000;

#[test]
fn data_allocation() {
    let len = 1024;
    let mut tracker = Tracker::new();
    let ptr = allocate(&mut tracker, len, |_| BLOCK).unwrap();
    let vec = vec![1u8; len];
    let val = from_host_ptr::<[u8; 1024], _>(&mut tracker, ptr.address() as i64, |region| {
        assert_eq!(region, Region { address: BLOCK, length: 1024 });
        vec.clone()
    })
    .unwrap();
    assert_eq!(val.to_vec(), vec);
    assert!(tracker.length_at(ptr.address()).is_none());
}

#[test]
fn zero_allocation_is_refused() {
    assert_eq!(check_request(0), Some(AllocationFailure::ZeroSized));
    let mut tracker = Tracker::new();
    let outcome = track_allocation(&mut tracker, 0, BLOCK);
    assert_eq!(outcome.err(), Some(AllocationFailure::ZeroSized));
    assert_eq!(tracker.outstanding(), 0);
}

#[test]
fn big_allocation_is_refused() {
    let too_big = isize::MAX as usize + 1;
    assert_eq!(check_request(too_big), Some(AllocationFailure::CapacityOverflow));
    assert_eq!(check_request(usize::MAX), Some(AllocationFailure::CapacityOverflow));
    let mut tracker = Tracker::new();
    let outcome = track_allocation(&mut tracker, too_big, BLOCK);
    assert_eq!(outcome.err(), Some(AllocationFailure::CapacityOverflow));
    assert_eq!(tracker.length_at(BLOCK), None);
}

#[test]
fn allocate_asks_the_system_only_for_sound_requests() {
    let mut tracker = Tracker::new();
    let mut asked = Vec::new();
    for len in [0usize, isize::MAX as usize + 1, usize::MAX] {
        let outcome = allocate(&mut tracker, len, |len| {
            asked.push(len);
            BLOCK
        });
        assert!(outcome.is_err());
    }
    assert!(asked.is_empty());
    assert_eq!(tracker.outstanding(), 0);
    let pointer = allocate(&mut tracker, 24, |len| {
        asked.push(len);
        BLOCK
    })
    .unwrap();
    assert_eq!(asked, vec![24]);
    assert_eq!(pointer.address(), BLOCK);
    assert_eq!(tracker.length_at(BLOCK), Some(24));
    assert_eq!(tracker.outstanding(), 1);
}

#[test]
fn allocate_fails_on_a_null_block() {
    let mut tracker = Tracker::new();
    let outcome = allocate(&mut tracker, 24, |_| 0);
    assert_eq!(outcome.err(), Some(AllocationFailure::OutOfMemory));
    assert_eq!(tracker.length_at(0), None);
    assert_eq!(tracker.outstanding(), 0);
}

#[test]
fn largest_request_is_admitted() {
    assert_eq!(check_request(1), None);
    assert_eq!(check_request(isize::MAX as usize), None);
}

#[test]
fn null_answer_is_out_of_memory() {
    let mut tracker = Tracker::new();
    let outcome = track_allocation(&mut tracker, 16, 0);
    assert_eq!(outcome.err(), Some(AllocationFailure::OutOfMemory));
    assert_eq!(tracker.outstanding(), 0);
}

#[test]
fn allocation_is_tracked_with_its_length() {
    let mut tracker = Tracker::new();
    for len in [1usize, 2, 1024, u32::MAX as usize] {
        let address = BLOCK + len;
        let pointer = track_allocation(&mut tracker, len, address).unwrap();
        assert_ne!(pointer.address(), 0);
        assert_eq!(pointer.address(), address);
        assert_eq!(tracker.length_at(address), Some(len));
    }
    assert_eq!(tracker.outstanding(), 4);
}

#[test]
fn encode_packs_address_low_and_length_high() {
    assert_eq!(encode(0x1234, 0x10), Ok(0x0000_0010_0000_1234));
    assert_eq!(encode(0, 0), Ok(0));
    assert_eq!(encode(1, 0), Ok(1));
    assert_eq!(encode(0, 1), Ok(0x1_0000_0000));
    assert_eq!(encode(0xFFFF_FFFF, 0), Ok(0xFFFF_FFFF));
    assert_eq!(encode(0xFFFF_FFFF, 0x7FFF_FFFF), Ok(i64::MAX));
}

#[test]
fn encode_of_long_lengths_is_negative() {
    assert_eq!(encode(0, 0x8000_0000), Ok(i64::MIN));
    assert_eq!(encode(0xFFFF_FFFF, 0xFFFF_FFFF), Ok(-1));
    assert_eq!(encode(5, 0xFFFF_FFFF), Ok(-0x1_0000_0000 + 5));
}

#[test]
fn encode_rejects_wide_fields() {
    let wide = 0x1_0000_0000u64 as usize;
    assert_eq!(encode(wide, 0), Err(Error::RangeExceeded));
    assert_eq!(encode(0, wide), Err(Error::RangeExceeded));
    assert_eq!(encode(wide, wide), Err(Error::RangeExceeded));
    assert_eq!(encode(usize::MAX, 1), Err(Error::RangeExceeded));
    assert_eq!(encode(1, usize::MAX), Err(Error::RangeExceeded));
}

#[test]
fn decode_splits_the_halves() {
    assert_eq!(decode(0x0000_0010_0000_1234), (0x1234, 0x10));
    assert_eq!(decode(0), (0, 0));
    assert_eq!(decode(-1), (0xFFFF_FFFF, 0xFFFF_FFFF));
    assert_eq!(decode(i64::MIN), (0, 0x8000_0000));
    assert_eq!(decode(i64::MAX), (0xFFFF_FFFF, 0x7FFF_FFFF));
}

#[test]
fn decode_inverts_encode() {
    let fields = [0usize, 1, 2, 0x1234, 0x7FFF_FFFF, 0x8000_0000, 0xFFFF_FFFE, 0xFFFF_FFFF];
    for address in fields {
        for length in fields {
            let handle = encode(address, length).unwrap();
            assert_eq!(decode(handle), (address, length));
        }
    }
}

#[test]
fn encode_inverts_decode() {
    for handle in [0i64, 1, -1, 42, -42, i64::MIN, i64::MAX, 0x1234_5678_9ABC_DEF0] {
        let (address, length) = decode(handle);
        assert_eq!(encode(address, length), Ok(handle));
    }
}

#[test]
fn to_host_ptr_carries_the_length() {
    let bytes = vec![7u8; 48];
    match to_host_ptr(&bytes) {
        Ok(handle) => {
            let (address, length) = decode(handle);
            assert_eq!(length, 48);
            assert_eq!(encode(address, 48), Ok(handle));
        }
        Err(error) => {
            assert_eq!(error, Error::RangeExceeded);
            assert_ne!(usize::BITS, 32);
        }
    }
}

#[test]
fn to_host_ptr_of_nothing_carries_no_length() {
    let empty: [u8; 0] = [];
    if let Ok(handle) = to_host_ptr(&empty) {
        assert_eq!(decode(handle).1, 0);
    }
}

#[test]
fn deserialize_block_reads_a_reclaimed_block_once() {
    let mut reads = 0;
    let block = Region { address: BLOCK, length: 4 };
    let value = deserialize_block::<u32, _>(Ok(block), |region| {
        assert_eq!(region, block);
        reads += 1;
        vec![9, 0, 0, 0]
    });
    assert_eq!(value, Ok(9));
    assert_eq!(reads, 1);
    let garbled = deserialize_block::<u32, _>(Ok(block), |_| vec![9]);
    assert_eq!(garbled, Err(Error::Deserialization));
}

#[test]
fn deserialize_block_hands_on_a_failed_reclaim() {
    let mut reads = 0;
    let value = deserialize_block::<u32, _>(Err(Error::InvalidPointer), |_| {
        reads += 1;
        vec![9, 0, 0, 0]
    });
    assert_eq!(value, Err(Error::InvalidPointer));
    assert_eq!(reads, 0);
}

#[test]
fn pointer_from_value_is_cut_to_pointer_width() {
    assert_eq!(Pointer::from(4096).address(), 4096);
    assert_eq!(Pointer::from(0).address(), 0);
    assert_eq!(Pointer::from(-1).address(), usize::MAX);
    assert_eq!(Pointer::from(i64::MAX).address(), i64::MAX as usize);
}

#[test]
fn address_survives_the_way_through_a_host_value() {
    for address in [0usize, 1, BLOCK, 0xFFFF_FFFF, usize::MAX] {
        assert_eq!(Pointer::from(address as i64).address(), address);
    }
}

#[test]
fn handle_names_its_address_where_pointers_are_narrow() {
    for handle in [0i64, 0x0000_0010_0000_1234, -1, i64::MIN, i64::MAX] {
        let named = Pointer::from(handle).address();
        if usize::BITS == 32 {
            assert_eq!(named, decode(handle).0);
        } else {
            assert_eq!(named as u64, handle as u64);
        }
    }
}

#[test]
fn allocate_then_reclaim_restores_the_registry() {
    let mut tracker = Tracker::new();
    tracker.record(8, 100);
    let pointer = allocate(&mut tracker, 1024, |_| BLOCK).unwrap();
    assert_eq!(tracker.outstanding(), 2);
    let region = reclaim(&mut tracker, pointer.address() as i64).unwrap();
    assert_eq!(region, Region { address: BLOCK, length: 1024 });
    assert_eq!(tracker.outstanding(), 1);
    assert_eq!(tracker.length_at(8), Some(100));
    assert_eq!(tracker.length_at(BLOCK), None);
}

#[test]
fn record_overwrites_and_take_removes() {
    let mut tracker = Tracker::new();
    assert_eq!(tracker.outstanding(), 0);
    tracker.record(8, 100);
    tracker.record(16, 200);
    tracker.record(8, 300);
    assert_eq!(tracker.outstanding(), 2);
    assert_eq!(tracker.length_at(8), Some(300));
    assert_eq!(tracker.length_at(16), Some(200));
    assert_eq!(tracker.take(8), Some(300));
    assert_eq!(tracker.take(8), None);
    assert_eq!(tracker.length_at(8), None);
    assert_eq!(tracker.length_at(16), Some(200));
    assert_eq!(tracker.outstanding(), 1);
    assert_eq!(tracker.take(24), None);
    assert_eq!(tracker.outstanding(), 1);
}

#[test]
fn reclaim_succeeds_once() {
    let mut tracker = Tracker::new();
    track_allocation(&mut tracker, 64, BLOCK).unwrap();
    assert_eq!(reclaim(&mut tracker, BLOCK as i64), Ok(Region { address: BLOCK, length: 64 }));
    assert_eq!(reclaim(&mut tracker, BLOCK as i64), Err(Error::InvalidPointer));
    assert_eq!(reclaim(&mut tracker, BLOCK as i64), Err(Error::InvalidPointer));
}

#[test]
fn reclaim_of_unknown_address_fails_and_changes_nothing() {
    let mut tracker = Tracker::new();
    assert_eq!(reclaim(&mut tracker, BLOCK as i64), Err(Error::InvalidPointer));
    track_allocation(&mut tracker, 64, BLOCK).unwrap();
    assert_eq!(reclaim(&mut tracker, (BLOCK + 8) as i64), Err(Error::InvalidPointer));
    assert_eq!(reclaim(&mut tracker, 0), Err(Error::InvalidPointer));
    assert_eq!(tracker.outstanding(), 1);
    assert_eq!(tracker.length_at(BLOCK), Some(64));
}

#[test]
fn from_host_ptr_reads_nothing_without_an_entry() {
    let mut tracker = Tracker::new();
    let mut reads = 0;
    let outcome = from_host_ptr::<u32, _>(&mut tracker, BLOCK as i64, |_| {
        reads += 1;
        vec![1, 0, 0, 0]
    });
    assert_eq!(outcome, Err(Error::InvalidPointer));
    assert_eq!(reads, 0);
}

#[test]
fn from_host_ptr_deserializes_the_block() {
    let mut tracker = Tracker::new();
    track_allocation(&mut tracker, 4, BLOCK).unwrap();
    let outcome = from_host_ptr::<u32, _>(&mut tracker, BLOCK as i64, |region| {
        assert_eq!(region, Region { address: BLOCK, length: 4 });
        vec![0x78, 0x56, 0x34, 0x12]
    });
    assert_eq!(outcome, Ok(0x1234_5678));
    assert_eq!(tracker.length_at(BLOCK), None);

    track_allocation(&mut tracker, 9, BLOCK).unwrap();
    let text = from_host_ptr::<String, _>(&mut tracker, BLOCK as i64, |_| {
        vec![5, 0, 0, 0, b'h', b'e', b'l', b'l', b'o']
    });
    assert_eq!(text, Ok(String::from("hello")));
}

#[test]
fn from_host_ptr_consumes_the_entry_when_parsing_fails() {
    let mut tracker = Tracker::new();
    track_allocation(&mut tracker, 2, BLOCK).unwrap();
    let short = from_host_ptr::<u32, _>(&mut tracker, BLOCK as i64, |_| vec![1, 2]);
    assert_eq!(short, Err(Error::Deserialization));
    assert_eq!(tracker.length_at(BLOCK), None);
    assert_eq!(tracker.outstanding(), 0);
    let again = from_host_ptr::<u32, _>(&mut tracker, BLOCK as i64, |_| vec![1, 2]);
    assert_eq!(again, Err(Error::InvalidPointer));
}

#[test]
fn from_host_ptr_rejects_trailing_bytes() {
    let mut tracker = Tracker::new();
    track_allocation(&mut tracker, 5, BLOCK).unwrap();
    let long = from_host_ptr::<u32, _>(&mut tracker, BLOCK as i64, |_| vec![1, 0, 0, 0, 9]);
    assert_eq!(long, Err(Error::Deserialization));
}

#[test]
fn settle_maps_every_parse_error() {
    assert_eq!(settle(borsh::from_slice::<u8>(&[7])), Ok(7));
    assert_eq!(settle(borsh::from_slice::<u8>(&[])), Err(Error::Deserialization));
    assert_eq!(settle(borsh::from_slice::<bool>(&[2])), Err(Error::Deserialization));
}
