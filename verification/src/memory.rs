//! Temporary storage that is allocated while a program runs.
//!
//! The host asks for a block of memory, writes bytes into it and hands the
//! program a handle to it. The program reclaims the block the first time it
//! reads the handle. Nothing here touches raw memory: the functions decide
//! what may be allocated and what may be read, over addresses and lengths, and
//! the registry of outstanding allocations is their only witness.

use vstd::prelude::*;
use vstd::std_specs::convert::FromSpecImpl;
use crate::handle::{address_of, encode, fits_field, length_of, pack, unsigned_word};
use crate::state::Error;
use crate::tracker::Tracker;

verus! {

/// An address and a length packed into one 64-bit signed integer: the low 32
/// bits hold the address of the bytes, the high 32 bits their length.
pub type HostPtr = i64;

/// The address of a block of memory, as wide as the machine's pointers.
#[derive(Clone, Copy)]
pub struct Pointer(usize);

impl View for Pointer {
    type V = usize;

    /// The address as a number.
    closed spec fn view(&self) -> usize {
        self.0
    }
}

/// The address that a 64-bit value names on this machine: the value cut to
/// the width of a pointer.
pub open spec fn named_address(value: i64) -> usize {
    value as usize
}

impl Pointer {
    /// The pointer at `address`.
    pub closed spec fn at(address: usize) -> Pointer {
        Pointer(address)
    }

    /// The address as a number.
    pub fn address(self) -> (address: usize)
        ensures
            address == self@,
    {
        self.0
    }

    /// `at` and the view are inverse to each other.
    pub broadcast proof fn lemma_at_view(address: usize)
        ensures
            (#[trigger] Pointer::at(address))@ == address,
    {
    }
}

impl FromSpecImpl<i64> for Pointer {
    open spec fn obeys_from_spec() -> bool {
        true
    }

    open spec fn from_spec(v: i64) -> Pointer {
        Pointer::at(named_address(v))
    }
}

impl From<i64> for Pointer {
    /// Reads a 64-bit value as an address, cutting it to the width of a
    /// pointer.
    fn from(v: i64) -> (pointer: Pointer)
        ensures
            pointer@ == named_address(v),
    {
        let address: usize = #[verifier::truncate] (v as usize);
        Pointer(address)
    }
}

/// An address survives the way through a 64-bit value: written as an `i64`
/// and read back, it is the same address, on a 32-bit and on a 64-bit machine.
pub proof fn lemma_address_survives(address: usize)
    ensures
        named_address(address as i64) == address,
{
    assert((address as i64) as usize == address) by (bit_vector);
}

/// Where pointers have 32 bits, as in the guest, the address that a handle
/// names is the address that it carries in its low half: the length in the
/// high half is cut away.
pub proof fn lemma_named_address_of_handle(handle: i64)
    ensures
        usize::BITS == 32 ==> named_address(handle) == address_of(handle as int),
        usize::BITS == 64 ==> named_address(handle) == unsigned_word(handle as int),
{
    let word: u64 = handle as u64;
    assert(word == (if handle < 0 {
        handle + 0x1_0000_0000_0000_0000
    } else {
        handle as int
    })) by (bit_vector)
        requires
            word == handle as u64,
    ;
    assert(usize::BITS == 32 ==> (handle as usize) == word % 0x1_0000_0000) by (bit_vector)
        requires
            word == handle as u64,
    ;
    assert(usize::BITS == 64 ==> (handle as usize) == word) by (bit_vector)
        requires
            word == handle as u64,
    ;
}

/// Why a request for memory cannot be served. None of these can be recovered
/// from: the invocation that asked ends.
#[derive(Clone, Copy, Debug, PartialEq, Eq, Structural)]
pub enum AllocationFailure {
    /// Zero bytes were asked for.
    ZeroSized,
    /// More bytes were asked for than one allocation can have on this machine.
    CapacityOverflow,
    /// The system allocator had no block to give and answered with the null
    /// address.
    OutOfMemory,
}

/// A block of memory by address and length: what is left of an allocation
/// once its entry has been taken from the registry. Whoever holds it owns the
/// bytes.
#[derive(Clone, Copy, Debug, PartialEq, Eq, Structural)]
pub struct Region {
    /// Where the block starts.
    pub address: usize,
    /// How many bytes it has.
    pub length: usize,
}

/// What is wrong with a request for `len` bytes, if anything: it asks for
/// nothing, or for more than `isize::MAX` bytes.
pub open spec fn request_fault(len: usize) -> Option<AllocationFailure> {
    if len == 0 {
        Some(AllocationFailure::ZeroSized)
    } else if len > isize::MAX {
        Some(AllocationFailure::CapacityOverflow)
    } else {
        None
    }
}

/// What is wrong with an allocation of `len` bytes that the system allocator
/// answered with `address`, if anything: the request itself, or else a null
/// address.
pub open spec fn allocation_fault(len: usize, address: usize) -> Option<AllocationFailure> {
    if request_fault(len) is Some {
        request_fault(len)
    } else if address == 0 {
        Some(AllocationFailure::OutOfMemory)
    } else {
        None
    }
}

/// Judges a request for `len` bytes before the system allocator is asked.
///
/// A request for no bytes always fails, and so does one for more than
/// `isize::MAX` bytes; every other request may go on.
pub fn check_request(len: usize) -> (fault: Option<AllocationFailure>)
    ensures
        fault == request_fault(len),
{
    if len == 0 {
        Some(AllocationFailure::ZeroSized)
    } else if len > isize::MAX as usize {
        Some(AllocationFailure::CapacityOverflow)
    } else {
        None
    }
}

/// The registry after `len` bytes at `address` were recorded in one that
/// held `entries`.
pub open spec fn after_allocation(entries: Map<usize, usize>, len: usize, address: usize) -> Map<
    usize,
    usize,
> {
    entries.insert(address, len)
}

/// Completes an allocation of `len` bytes that the system allocator answered
/// with `address`.
///
/// A sound allocation gets exactly one entry in the registry, `address` with
/// `len` under it, and its pointer is returned. A faulty one leaves the
/// registry as it was.
pub fn track_allocation(tracker: &mut Tracker, len: usize, address: usize) -> (result: Result<
    Pointer,
    AllocationFailure,
>)
    ensures
        match result {
            Ok(pointer) => {
                &&& allocation_fault(len, address) is None
                &&& pointer@ == address
                &&& pointer@ != 0
                &&& final(tracker)@ == after_allocation(old(tracker)@, len, address)
                &&& final(tracker).tracks(address)
                &&& final(tracker)@[address] == len
            },
            Err(fault) => {
                &&& allocation_fault(len, address) == Some(fault)
                &&& final(tracker)@ == old(tracker)@
            },
        },
{
    match check_request(len) {
        Some(fault) => Err(fault),
        None => {
            if address == 0 {
                Err(AllocationFailure::OutOfMemory)
            } else {
                tracker.record(address, len);
                Ok(Pointer(address))
            }
        },
    }
}

/// Allocates `len` bytes and tracks them.
///
/// `system` is the way to the system allocator: it is handed the number of
/// bytes and returns the address of a fresh block, or the null address where
/// it has none. It is asked only where the request is sound, that is for at
/// least one byte and at most `isize::MAX`. A request for no bytes always
/// fails, with `ZeroSized`. On success the pointer is the address that
/// `system` gave, it is not null, and the registry has gained exactly the
/// entry of that address with `len` under it. On every failure the registry
/// is as it was.
pub fn allocate<F>(tracker: &mut Tracker, len: usize, system: F) -> (result: Result<
    Pointer,
    AllocationFailure,
>) where F: FnOnce(usize) -> usize
    requires
        request_fault(len) is None ==> call_requires(system, (len,)),
    ensures
        len == 0 ==> result == Err::<Pointer, AllocationFailure>(AllocationFailure::ZeroSized),
        match result {
            Ok(pointer) => {
                &&& request_fault(len) is None
                &&& call_ensures(system, (len,), pointer@)
                &&& pointer@ != 0
                &&& final(tracker)@ == after_allocation(old(tracker)@, len, pointer@)
                &&& final(tracker).tracks(pointer@)
                &&& final(tracker)@[pointer@] == len
            },
            Err(fault) => {
                &&& final(tracker)@ == old(tracker)@
                &&& if request_fault(len) is Some {
                    request_fault(len) == Some(fault)
                } else {
                    fault == AllocationFailure::OutOfMemory && call_ensures(system, (len,), 0usize)
                }
            },
        },
{
    match check_request(len) {
        Some(fault) => Err(fault),
        None => {
            let address: usize = system(len);
            track_allocation(tracker, len, address)
        },
    }
}

/// What reclaiming `ptr` answers on a registry that holds `entries`: the block
/// at the address that `ptr` names, with the length recorded there, or
/// `InvalidPointer` where nothing is recorded there.
pub open spec fn reclaimed(entries: Map<usize, usize>, ptr: HostPtr) -> Result<Region, Error> {
    let address = named_address(ptr);
    if entries.contains_key(address) {
        Ok(Region { address, length: entries[address] })
    } else {
        Err(Error::InvalidPointer)
    }
}

/// What reclaiming `ptr` leaves of a registry that holds `entries`: all of it
/// but the entry at the address that `ptr` names.
pub open spec fn after_reclaim(entries: Map<usize, usize>, ptr: HostPtr) -> Map<usize, usize> {
    entries.remove(named_address(ptr))
}

/// Gives out the block that `ptr` names, once.
///
/// The address is `ptr` cut to the width of a pointer. Where the registry has
/// an entry for it, the entry is removed and the block is returned with the
/// length that was recorded. Where it has none, because the address was never
/// allocated or was reclaimed before, the answer is `InvalidPointer` and the
/// registry stays as it was.
pub fn reclaim(tracker: &mut Tracker, ptr: HostPtr) -> (result: Result<Region, Error>)
    ensures
        result == reclaimed(old(tracker)@, ptr),
        final(tracker)@ == after_reclaim(old(tracker)@, ptr),
        result is Err ==> final(tracker)@ == old(tracker)@,
{
    let address: usize = Pointer::from(ptr).address();
    match tracker.take(address) {
        Some(length) => Ok(Region { address, length }),
        None => {
            assert(old(tracker)@.remove(address) =~= old(tracker)@);
            Err(Error::InvalidPointer)
        },
    }
}

/// Reclaiming is a one-shot read: whatever the registry held, and whether or
/// not the first reclaim of `ptr` found a block, a second reclaim of the same
/// `ptr` answers `InvalidPointer` and changes nothing.
pub proof fn lemma_second_reclaim_fails(entries: Map<usize, usize>, ptr: HostPtr)
    ensures
        reclaimed(after_reclaim(entries, ptr), ptr) == Err::<Region, Error>(Error::InvalidPointer),
        after_reclaim(after_reclaim(entries, ptr), ptr) == after_reclaim(entries, ptr),
{
    assert(after_reclaim(after_reclaim(entries, ptr), ptr) =~= after_reclaim(entries, ptr));
}

/// An address without an entry cannot be reclaimed: the answer is
/// `InvalidPointer` and the registry is unchanged. In a registry that holds
/// nothing yet, that is every address.
pub proof fn lemma_reclaim_needs_an_entry(entries: Map<usize, usize>, ptr: HostPtr)
    requires
        !entries.contains_key(named_address(ptr)),
    ensures
        reclaimed(entries, ptr) == Err::<Region, Error>(Error::InvalidPointer),
        after_reclaim(entries, ptr) == entries,
        reclaimed(Map::<usize, usize>::empty(), ptr) == Err::<Region, Error>(
            Error::InvalidPointer,
        ),
{
    assert(after_reclaim(entries, ptr) =~= entries);
}

/// A tracked allocation is reclaimed whole: once `len` bytes at `address` are
/// recorded, reclaiming `address`, written as a 64-bit value, gives the block
/// at `address` with exactly `len` bytes and leaves no entry for `address`.
/// Entries of other addresses are as they were before the allocation.
pub proof fn lemma_allocation_is_reclaimed(entries: Map<usize, usize>, len: usize, address: usize)
    ensures
        reclaimed(after_allocation(entries, len, address), address as i64) == Ok::<Region, Error>(
            Region { address, length: len },
        ),
        after_reclaim(after_allocation(entries, len, address), address as i64) == entries.remove(address),
        !entries.contains_key(address) ==> after_reclaim(
            after_allocation(entries, len, address),
            address as i64,
        ) == entries,
{
    lemma_address_survives(address);
    assert(after_reclaim(after_allocation(entries, len, address), address as i64) =~= entries.remove(
        address,
    ));
    if !entries.contains_key(address) {
        assert(entries.remove(address) =~= entries);
    }
}

/// In the guest, where pointers have 32 bits, a block is reclaimed by its
/// handle: the handle packed from the block's address and any length that fits
/// names that address, so reclaiming it gives the block with the length that
/// the registry recorded.
pub proof fn lemma_reclaim_by_handle(entries: Map<usize, usize>, address: usize, length: usize)
    requires
        usize::BITS == 32,
        fits_field(address as int),
        fits_field(length as int),
        entries.contains_key(address),
    ensures
        i64::MIN <= pack(address as int, length as int) <= i64::MAX,
        reclaimed(entries, pack(address as int, length as int) as i64) == Ok::<Region, Error>(
            Region { address, length: entries[address] },
        ),
{
    crate::handle::lemma_pack_round_trip(address as int, length as int);
    lemma_named_address_of_handle(pack(address as int, length as int) as i64);
}

/// Reclaiming one address leaves the entry of every other address as it was.
pub proof fn lemma_reclaim_spares_others(entries: Map<usize, usize>, ptr: HostPtr, other: usize)
    requires
        other != named_address(ptr),
    ensures
        after_reclaim(entries, ptr).contains_key(other) == entries.contains_key(other),
        entries.contains_key(other) ==> after_reclaim(entries, ptr)[other] == entries[other],
{
}

/// `std::io::Error`, which is the error of `borsh::from_slice`. Nothing is read
/// from it here: every such error becomes [`Error::Deserialization`].
#[verifier::external_type_specification]
#[verifier::external_body]
pub struct ExIoError(std::io::Error);

/// Calls `borsh::from_slice` on `bytes`.
///
/// Nothing is claimed of the outcome: whether the bytes parse, and into which
/// value, is for the `BorshDeserialize` impl of `V` to say, and an impl that
/// panics makes this call panic. `from_slice` itself adds one error: bytes
/// that are left over once the value has been read.
#[verifier::external_body]
fn parse<V: borsh::BorshDeserialize>(bytes: &[u8]) -> (parsed: Result<V, std::io::Error>) {
    borsh::from_slice::<V>(bytes)
}

/// The machine address at which the bytes of `arg` start, by `as_ptr` of
/// slices. Nothing is claimed of it: an address is the allocator's choice.
#[verifier::external_body]
fn start_address(arg: &[u8]) -> (address: usize) {
    arg.as_ptr() as usize
}

/// Turns the outcome of parsing into the answer of this layer: the value
/// where there is one, `Deserialization` for every parse error.
pub fn settle<V>(parsed: Result<V, std::io::Error>) -> (result: Result<V, Error>)
    ensures
        match parsed {
            Ok(value) => result == Ok::<V, Error>(value),
            Err(_) => result == Err::<V, Error>(Error::Deserialization),
        },
{
    match parsed {
        Ok(value) => Ok(value),
        Err(_) => Err(Error::Deserialization),
    }
}

/// Packs the place and the length of `arg` into a handle.
///
/// The length in the handle is the length of `arg`, the address is where its
/// bytes start. Fails with `RangeExceeded` where one of the two needs more
/// than 32 bits; a length that does always fails. Where pointers have 32
/// bits, as in the guest, neither can, and the packing always succeeds. Which
/// address a slice has is not for this function to say: [`encode`] is the
/// same packing on a given address.
pub fn to_host_ptr(arg: &[u8]) -> (result: Result<HostPtr, Error>)
    ensures
        match result {
            Ok(handle) => {
                &&& fits_field(arg@.len() as int)
                &&& length_of(handle as int) == arg@.len()
                &&& handle == pack(address_of(handle as int), arg@.len() as int)
            },
            Err(error) => error == Error::RangeExceeded,
        },
        !fits_field(arg@.len() as int) ==> result is Err,
        usize::BITS == 32 ==> result is Ok,
{
    let ptr: usize = start_address(arg);
    let len: usize = arg.len();
    proof {
        if fits_field(ptr as int) && fits_field(len as int) {
            crate::handle::lemma_pack_round_trip(ptr as int, len as int);
        }
    }
    encode(ptr, len)
}

/// Reads and deserializes a block that was reclaimed, or hands on the error
/// of a reclaim that found none.
///
/// `read` is the way to the raw memory: it is handed the reclaimed block and
/// returns the bytes in it. Where there is a block it is read, and bytes that
/// do not parse give `Deserialization`. Where there is none, the error of the
/// reclaim is the answer. The registry is not needed any more: whoever guards
/// it may let go of it before the bytes are read.
pub fn deserialize_block<V, F>(reclaimed: Result<Region, Error>, read: F) -> (result: Result<
    V,
    Error,
>) where V: borsh::BorshDeserialize, F: FnOnce(Region) -> Vec<u8>
    requires
        match reclaimed {
            Ok(region) => call_requires(read, (region,)),
            Err(_) => true,
        },
    ensures
        match reclaimed {
            Ok(region) => {
                &&& result is Ok || result == Err::<V, Error>(Error::Deserialization)
                &&& exists|bytes: Vec<u8>| call_ensures(read, (region,), bytes)
            },
            Err(error) => result == Err::<V, Error>(error),
        },
{
    match reclaimed {
        Ok(region) => {
            let bytes: Vec<u8> = read(region);
            settle(parse::<V>(bytes.as_slice()))
        },
        Err(error) => Err(error),
    }
}

/// Reclaims the block that `ptr` names and deserializes its bytes.
///
/// `read` is the way to the raw memory: it is handed the reclaimed block and
/// returns the bytes in it. Where the registry has no entry the answer is
/// `InvalidPointer` and the registry stays as it was. Where it has one, the
/// block is read, the entry is gone afterwards whether or not the bytes
/// parse, and bytes that do not parse give `Deserialization`.
pub fn from_host_ptr<V, F>(tracker: &mut Tracker, ptr: HostPtr, read: F) -> (result: Result<
    V,
    Error,
>) where V: borsh::BorshDeserialize, F: FnOnce(Region) -> Vec<u8>
    requires
        match reclaimed(old(tracker)@, ptr) {
            Ok(region) => call_requires(read, (region,)),
            Err(_) => true,
        },
    ensures
        final(tracker)@ == after_reclaim(old(tracker)@, ptr),
        match reclaimed(old(tracker)@, ptr) {
            Ok(region) => {
                &&& result is Ok || result == Err::<V, Error>(Error::Deserialization)
                &&& exists|bytes: Vec<u8>| call_ensures(read, (region,), bytes)
            },
            Err(error) => result == Err::<V, Error>(error) && final(tracker)@ == old(tracker)@,
        },
{
    let outcome: Result<Region, Error> = reclaim(tracker, ptr);
    deserialize_block(outcome, read)
}

} // verus!
