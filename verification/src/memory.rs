//! Linear byte-addressable storage behind a 16-bit address bus.

use crate::error::CpuError;
use vstd::prelude::*;

verus! {

/// The number of addresses that a 16-bit bus reaches: 64 KiB.
pub const ADDRESS_SPACE: usize = 0x10000;

/// The address that follows `address`, wrapping from `0xFFFF` to `0x0000`.
pub open spec fn following(address: u16) -> u16 {
    if address == 0xffff {
        0
    } else {
        (address + 1) as u16
    }
}

/// The 16-bit little-endian word made of a low and a high byte.
pub open spec fn word(low: u8, high: u8) -> u16 {
    (low + 0x100 * high) as u16
}

/// What reading `address` gives in a memory that holds `bytes`: the byte
/// stored there, or a fault where the address lies outside the memory.
pub open spec fn read_at(bytes: Seq<u8>, address: u16) -> Result<u8, CpuError> {
    if address < bytes.len() {
        Ok(bytes[address as int])
    } else {
        Err(CpuError::MemoryFault { address })
    }
}

/// What reading the little-endian word at `low_address` and `high_address`
/// gives: the low byte is read first, so its fault is the one reported.
pub open spec fn read_pair_at(bytes: Seq<u8>, low_address: u16, high_address: u16) -> Result<
    u16,
    CpuError,
> {
    match read_at(bytes, low_address) {
        Err(fault) => Err(fault),
        Ok(low) => match read_at(bytes, high_address) {
            Err(fault) => Err(fault),
            Ok(high) => Ok(word(low, high)),
        },
    }
}

/// What reading the little-endian word at `address` gives: the low byte at
/// `address`, the high byte at the address that follows it.
pub open spec fn read_word_at(bytes: Seq<u8>, address: u16) -> Result<u16, CpuError> {
    read_pair_at(bytes, address, following(address))
}

/// What writing `value` to `address` gives: the memory with that one byte
/// replaced, or a fault where the address lies outside the memory.
pub open spec fn write_at(bytes: Seq<u8>, address: u16, value: u8) -> Result<Seq<u8>, CpuError> {
    if address < bytes.len() {
        Ok(bytes.update(address as int, value))
    } else {
        Err(CpuError::MemoryFault { address })
    }
}

proof fn lemma_word_bits(low: u8, high: u8)
    by (bit_vector)
    ensures
        (high as u16) << 8 | (low as u16) == (low as u16) + 0x100 * (high as u16),
        (low as u16) + 0x100 * (high as u16) <= 0xffff,
{
}

/// Joins a low and a high byte into a little-endian word.
pub fn make_word(low: u8, high: u8) -> (joined: u16)
    ensures
        joined == word(low, high),
{
    proof {
        lemma_word_bits(low, high);
    }
    (high as u16) << 8 | (low as u16)
}

/// A memory of fixed size that owns the addresses from zero up to its size.
///
/// Its view is the sequence of the bytes it holds, indexed by address.
pub struct Memory {
    bytes: Vec<u8>,
}

impl View for Memory {
    type V = Seq<u8>;

    closed spec fn view(&self) -> Seq<u8> {
        self.bytes@
    }
}

impl Memory {
    /// Whether the memory fits the address bus. Every memory that the
    /// program holds is well formed.
    #[verifier::type_invariant]
    pub closed spec fn well_formed(self) -> bool {
        self.bytes.len() <= ADDRESS_SPACE
    }

    /// A memory that owns the whole 64 KiB address space, filled with zeros.
    pub fn new() -> (memory: Memory)
        ensures
            memory@ == Seq::new(ADDRESS_SPACE as nat, |address: int| 0u8),
    {
        Memory { bytes: vec![0u8; ADDRESS_SPACE] }
    }

    /// A memory that owns the first `size` addresses, filled with zeros, or
    /// nothing where `size` is more than the address bus reaches.
    pub fn with_size(size: usize) -> (memory: Option<Memory>)
        ensures
            memory is Some <==> size <= ADDRESS_SPACE,
            memory matches Some(m) ==> m@ == Seq::new(size as nat, |address: int| 0u8),
    {
        if size <= ADDRESS_SPACE {
            Some(Memory { bytes: vec![0u8; size] })
        } else {
            None
        }
    }

    /// The number of addresses that the memory owns.
    pub fn size(&self) -> (size: usize)
        ensures
            size == self@.len(),
            size <= ADDRESS_SPACE,
    {
        proof {
            use_type_invariant(self);
        }
        self.bytes.len()
    }

    /// Whether the memory owns `address`.
    pub fn contains(&self, address: u16) -> (owned: bool)
        ensures
            owned == (address < self@.len()),
    {
        (address as usize) < self.bytes.len()
    }

    /// The byte at `address`.
    pub fn read_byte(&self, address: u16) -> (value: u8)
        requires
            address < self@.len(),
        ensures
            value == self@[address as int],
            read_at(self@, address) == Ok::<u8, CpuError>(value),
    {
        self.bytes[address as usize]
    }

    /// Stores `value` at `address` and leaves every other byte as it was.
    pub fn write_byte(&mut self, address: u16, value: u8)
        requires
            address < old(self)@.len(),
        ensures
            final(self)@ == old(self)@.update(address as int, value),
            write_at(old(self)@, address, value) == Ok::<Seq<u8>, CpuError>(final(self)@),
    {
        proof {
            use_type_invariant(&*self);
        }
        self.bytes[address as usize] = value;
    }

    /// The little-endian word whose low byte is at `address` and whose high
    /// byte is at the address that follows, wrapping at the end of the
    /// address space.
    pub fn read_word(&self, address: u16) -> (value: u16)
        requires
            address < self@.len(),
            following(address) < self@.len(),
        ensures
            value == word(self@[address as int], self@[following(address) as int]),
            read_word_at(self@, address) == Ok::<u16, CpuError>(value),
    {
        let low = self.read_byte(address);
        let high = self.read_byte(address.wrapping_add(1));
        make_word(low, high)
    }

    /// The byte at `address`, or a fault where the memory does not own the
    /// address.
    pub fn try_read_byte(&self, address: u16) -> (value: Result<u8, CpuError>)
        ensures
            value == read_at(self@, address),
    {
        if self.contains(address) {
            Ok(self.read_byte(address))
        } else {
            Err(CpuError::MemoryFault { address })
        }
    }

    /// The little-endian word whose low byte is at `low_address` and whose
    /// high byte is at `high_address`, or the fault of the first of the two
    /// reads that the memory does not own.
    pub fn try_read_pair(&self, low_address: u16, high_address: u16) -> (value: Result<
        u16,
        CpuError,
    >)
        ensures
            value == read_pair_at(self@, low_address, high_address),
    {
        match self.try_read_byte(low_address) {
            Err(fault) => Err(fault),
            Ok(low) => match self.try_read_byte(high_address) {
                Err(fault) => Err(fault),
                Ok(high) => Ok(make_word(low, high)),
            },
        }
    }

    /// The little-endian word at `address`, or the fault of the first of its
    /// two bytes that the memory does not own.
    pub fn try_read_word(&self, address: u16) -> (value: Result<u16, CpuError>)
        ensures
            value == read_word_at(self@, address),
    {
        self.try_read_pair(address, address.wrapping_add(1))
    }

    /// Stores `value` at `address`, or reports a fault and changes nothing
    /// where the memory does not own the address.
    pub fn try_write_byte(&mut self, address: u16, value: u8) -> (done: Result<(), CpuError>)
        ensures
            match write_at(old(self)@, address, value) {
                Ok(bytes) => done == Ok::<(), CpuError>(()) && final(self)@ == bytes,
                Err(fault) => done == Err::<(), CpuError>(fault) && final(self)@ == old(self)@,
            },
    {
        if self.contains(address) {
            self.write_byte(address, value);
            Ok(())
        } else {
            Err(CpuError::MemoryFault { address })
        }
    }
}

} // verus!
