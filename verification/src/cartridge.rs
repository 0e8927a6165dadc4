use vstd::prelude::*;

verus! {

/// The largest ROM the cartridge address space can hold (32 MiB).
pub const MAX_ROM_SIZE: usize = 0x0200_0000;

/// Size of the battery-backed SRAM region.
pub const SRAM_SIZE: usize = 0x0001_0000;

#[derive(Clone, Copy, Debug, PartialEq, Eq, Structural)]
pub enum CartridgeError {
    /// The ROM image does not fit in the cartridge address space.
    RomTooLarge,
    /// The saved backup does not have the size of the SRAM.
    BackupSizeMismatch,
}

/// A game pak: its ROM image and its battery-backed SRAM.
#[derive(Clone, Debug)]
pub struct Cartridge {
    pub rom: Vec<u8>,
    pub sram: Vec<u8>,
}

/// The value an out-of-range ROM read returns: the bus still holds the low
/// bits of the halfword address.
pub open spec fn rom_open_bus_byte(offset: u32) -> u8 {
    if offset & 1 == 0 {
        ((offset >> 1u32) & 0xFFu32) as u8
    } else {
        ((offset >> 9u32) & 0xFFu32) as u8
    }
}

impl Cartridge {
    pub open spec fn wf(&self) -> bool {
        &&& self.rom.len() <= MAX_ROM_SIZE
        &&& self.sram.len() == SRAM_SIZE
    }

    /// The byte at `offset` of the ROM region.
    pub open spec fn rom_byte(&self, offset: u32) -> u8 {
        if (offset as int) < self.rom.len() {
            self.rom@[offset as int]
        } else {
            rom_open_bus_byte(offset)
        }
    }

    /// A cartridge with the given ROM image; its SRAM holds `backup`, or is
    /// erased (0xFF) when there is none.
    pub fn new(rom: Vec<u8>, backup: Option<Vec<u8>>) -> (r: Result<Cartridge, CartridgeError>)
        ensures
            rom.len() > MAX_ROM_SIZE ==> r == Err::<Cartridge, CartridgeError>(
                CartridgeError::RomTooLarge,
            ),
            rom.len() <= MAX_ROM_SIZE && backup.is_some() && backup.unwrap().len() != SRAM_SIZE ==> r
                == Err::<Cartridge, CartridgeError>(CartridgeError::BackupSizeMismatch),
            r.is_ok() <==> (rom.len() <= MAX_ROM_SIZE && (backup.is_none() || backup.unwrap().len()
                == SRAM_SIZE)),
            r.is_ok() ==> r.unwrap().wf() && r.unwrap().rom@ == rom@,
            r.is_ok() && backup.is_some() ==> r.unwrap().sram@ == backup.unwrap()@,
            r.is_ok() && backup.is_none() ==> forall|i: int|
                0 <= i < SRAM_SIZE ==> r.unwrap().sram@[i] == 0xFF,
    {
        if rom.len() > MAX_ROM_SIZE {
            return Err(CartridgeError::RomTooLarge);
        }
        let sram = match backup {
            Some(data) => {
                if data.len() != SRAM_SIZE {
                    return Err(CartridgeError::BackupSizeMismatch);
                }
                data
            },
            None => vec![0xFFu8; SRAM_SIZE],
        };
        Ok(Cartridge { rom, sram })
    }

    pub fn read_rom_byte(&self, offset: u32) -> (r: u8)
        requires
            self.wf(),
        ensures
            r == self.rom_byte(offset),
    {
        if (offset as usize) < self.rom.len() {
            self.rom[offset as usize]
        } else if offset & 1 == 0 {
            ((offset >> 1u32) & 0xFF) as u8
        } else {
            ((offset >> 9u32) & 0xFF) as u8
        }
    }

    /// The little-endian halfword at an even `offset`.
    pub fn read_rom_hword(&self, offset: u32) -> (r: u16)
        requires
            self.wf(),
            offset & 1 == 0,
        ensures
            r == (self.rom_byte(offset) as u16) | ((self.rom_byte((offset + 1) as u32) as u16)
                << 8u16),
    {
        self.read_rom_hword_debug(offset)
    }

    pub fn read_rom_hword_debug(&self, offset: u32) -> (r: u16)
        requires
            self.wf(),
            offset & 1 == 0,
        ensures
            r == (self.rom_byte(offset) as u16) | ((self.rom_byte((offset + 1) as u32) as u16)
                << 8u16),
    {
        assert(offset & 1 == 0 ==> offset < u32::MAX) by {
            crate::bits::lemma_u32_address(offset);
        }
        let low = self.read_rom_byte(offset);
        let high = self.read_rom_byte(offset + 1);
        (low as u16) | ((high as u16) << 8u16)
    }

    /// The little-endian word at an offset that is a multiple of 4.
    pub fn read_rom_word(&self, offset: u32) -> (r: u32)
        requires
            self.wf(),
            offset & 3 == 0,
        ensures
            r == (self.rom_byte(offset) as u32) | ((self.rom_byte((offset + 1) as u32) as u32)
                << 8u32) | ((self.rom_byte((offset + 2) as u32) as u32) << 16u32) | ((
            self.rom_byte((offset + 3) as u32) as u32) << 24u32),
    {
        assert(offset & 3 == 0 ==> offset <= u32::MAX - 3) by {
            crate::bits::lemma_u32_address(offset);
        }
        let b0 = self.read_rom_byte(offset);
        let b1 = self.read_rom_byte(offset + 1);
        let b2 = self.read_rom_byte(offset + 2);
        let b3 = self.read_rom_byte(offset + 3);
        (b0 as u32) | ((b1 as u32) << 8u32) | ((b2 as u32) << 16u32) | ((b3 as u32) << 24u32)
    }

    /// Writes to the ROM region have no effect on this cartridge.
    pub fn write_rom_byte(&mut self, value: u8, offset: u32)
        ensures
            *final(self) == *old(self),
    {
    }

    pub fn write_rom_hword(&mut self, value: u16, offset: u32)
        ensures
            *final(self) == *old(self),
    {
    }

    pub fn write_rom_word(&mut self, value: u32, offset: u32)
        ensures
            *final(self) == *old(self),
    {
    }

    pub fn read_sram_byte(&self, offset: u32) -> (r: u8)
        requires
            self.wf(),
            offset < SRAM_SIZE,
        ensures
            r == self.sram@[offset as int],
    {
        self.sram[offset as usize]
    }

    pub fn write_sram_byte(&mut self, value: u8, offset: u32)
        requires
            old(self).wf(),
            offset < SRAM_SIZE,
        ensures
            final(self).wf(),
            final(self).rom == old(self).rom,
            final(self).sram@ == old(self).sram@.update(offset as int, value),
    {
        self.sram.set(offset as usize, value);
    }

    /// The SRAM contents, to be saved between sessions.
    pub fn get_backup(&self) -> (r: &Vec<u8>)
        ensures
            r == &self.sram,
    {
        &self.sram
    }
}

} // verus!
