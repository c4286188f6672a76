//! A flat, bounds-checked byte store covering the 16-bit address space,
//! with little-endian 16-bit access and a loader that places program data
//! at the cartridge base.

use crate::alu::signed_val;
use crate::bytes::zero_vec;
use crate::config::ROM_START;
use crate::errors::EmuError;
use vstd::prelude::*;

verus! {

/// Number of addressable bytes in the store.
pub const MEMORY_SIZE: usize = 0xFFFF;

/// A flat byte store.
#[derive(Debug)]
pub struct Memory {
    pub memory: Vec<u8>,
}

impl View for Memory {
    type V = Seq<u8>;

    open spec fn view(&self) -> Seq<u8> {
        self.memory@
    }
}

impl Memory {
    /// Well-formedness: the store covers the whole address space.
    pub open spec fn wf(&self) -> bool {
        self@.len() == MEMORY_SIZE
    }

    /// A zeroed store.
    pub fn new() -> (r: Memory)
        ensures
            r.wf(),
            r@ == Seq::new(MEMORY_SIZE as nat, |i: int| 0u8),
    {
        Memory { memory: zero_vec(MEMORY_SIZE) }
    }

    /// Copy program data into the store at the cartridge base.
    pub fn load_rom(&mut self, rom: Vec<u8>)
        requires
            old(self).wf(),
            ROM_START + rom@.len() <= MEMORY_SIZE,
        ensures
            final(self).wf(),
            forall|i: int|
                0 <= i < MEMORY_SIZE ==> final(self)@[i] == (if ROM_START <= i < ROM_START
                    + rom@.len() {
                    rom@[i - ROM_START]
                } else {
                    old(self)@[i]
                }),
    {
        let mut i: usize = 0;
        while i < rom.len()
            invariant
                i <= rom@.len(),
                ROM_START + rom@.len() <= MEMORY_SIZE,
                self@.len() == MEMORY_SIZE,
                forall|j: int|
                    0 <= j < MEMORY_SIZE ==> self@[j] == (if ROM_START <= j < ROM_START + i {
                        rom@[j - ROM_START]
                    } else {
                        old(self)@[j]
                    }),
            decreases rom@.len() - i,
        {
            self.memory.set(ROM_START as usize + i, rom[i]);
            i = i + 1;
        }
    }

    /// Read the byte at an address; the top address is out of range.
    pub fn read_u8(&self, address: u16) -> (r: Result<u8, EmuError>)
        requires
            self.wf(),
        ensures
            r == (if address < MEMORY_SIZE {
                Ok::<u8, EmuError>(self@[address as int])
            } else {
                Err::<u8, EmuError>(EmuError::UnmappedRead(address))
            }),
    {
        if (address as usize) < MEMORY_SIZE {
            Ok(self.memory[address as usize])
        } else {
            Err(EmuError::UnmappedRead(address))
        }
    }

    /// Read the byte at an address as a signed value.
    pub fn read_i8(&self, address: u16) -> (r: Result<i8, EmuError>)
        requires
            self.wf(),
        ensures
            r == (if address < MEMORY_SIZE {
                Ok::<i8, EmuError>(signed_val(self@[address as int]) as i8)
            } else {
                Err::<i8, EmuError>(EmuError::UnmappedRead(address))
            }),
    {
        let value = match self.read_u8(address) {
            Ok(v) => v,
            Err(e) => {
                return Err(e);
            },
        };
        if value < 128 {
            Ok(value as i8)
        } else {
            Ok((value as i16 - 256) as i8)
        }
    }

    /// Read a little-endian 16-bit value; both bytes must be in range.
    pub fn read_u16(&self, address: u16) -> (r: Result<u16, EmuError>)
        requires
            self.wf(),
        ensures
            r == (if address + 2 <= MEMORY_SIZE {
                Ok::<u16, EmuError>(
                    (self@[address as int] + self@[address as int + 1] * 256) as u16,
                )
            } else {
                Err::<u16, EmuError>(EmuError::UnmappedRead(address))
            }),
    {
        if (address as usize) + 2 <= MEMORY_SIZE {
            let low_byte = self.memory[address as usize];
            let high_byte = self.memory[address as usize + 1];
            Ok(low_byte as u16 + high_byte as u16 * 256)
        } else {
            Err(EmuError::UnmappedRead(address))
        }
    }

    /// Write the byte at an address.
    pub fn write_u8(&mut self, address: u16, value: u8)
        requires
            old(self).wf(),
            address < MEMORY_SIZE,
        ensures
            final(self).wf(),
            final(self)@ == old(self)@.update(address as int, value),
    {
        self.memory.set(address as usize, value);
    }

    /// Write a signed byte at an address, as its two's-complement byte.
    pub fn write_i8(&mut self, address: u16, value: i8)
        requires
            old(self).wf(),
            address < MEMORY_SIZE,
        ensures
            final(self).wf(),
            final(self)@ == old(self)@.update(
                address as int,
                (if value >= 0 {
                    value as int
                } else {
                    value + 256
                }) as u8,
            ),
    {
        let byte: u8 = if value >= 0 {
            value as u8
        } else {
            (value as i16 + 256) as u8
        };
        self.memory.set(address as usize, byte);
    }

    /// Write a little-endian 16-bit value at an address.
    pub fn write_u16(&mut self, address: u16, value: u16)
        requires
            old(self).wf(),
            address + 2 <= MEMORY_SIZE,
        ensures
            final(self).wf(),
            final(self)@ == old(self)@.update(address as int, (value as int % 256) as u8).update(
                address as int + 1,
                (value as int / 256) as u8,
            ),
    {
        self.memory.set(address as usize, (value % 256) as u8);
        self.memory.set(address as usize + 1, (value / 256) as u8);
    }
}

} // verus!
