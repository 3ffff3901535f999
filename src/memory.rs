use vstd::prelude::*;

verus! {

/// A byte-addressable store over the whole 16-bit address space.
///
/// `contents` is what a read of each address returns; `after_write` is what
/// the store reads as after one write, which for a segmented store may touch
/// more than one address (mirrors) or none (read-only cells).
pub trait Memory: Sized {
    /// The byte that a read of each address returns.
    spec fn contents(&self) -> Seq<u8>;

    /// The contents after writing `value` at `address`.
    spec fn after_write(contents: Seq<u8>, address: u16, value: u8) -> Seq<u8>;

    /// Reads the byte at `address`.
    fn read(&self, address: u16) -> (r: u8)
        ensures
            r == self.contents()[address as int],
    ;

    /// Writes `value` at `address`.
    fn write(&mut self, address: u16, value: u8)
        ensures
            final(self).contents() == Self::after_write(old(self).contents(), address, value),
    ;
}

/// A storage segment of the bus.
#[derive(Clone, Copy, Debug, PartialEq, Eq, Structural)]
pub enum Region {
    RomBank0,
    RomBankN,
    VideoRam,
    ExternalRam,
    WorkRam0,
    WorkRamN,
    ObjectAttributes,
    IoRegisters,
    HighRam,
    InterruptEnable,
}

/// The number of bytes a region holds.
pub open spec fn region_len(g: Region) -> int {
    match g {
        Region::RomBank0 => 0x4000,
        Region::RomBankN => 0x4000,
        Region::VideoRam => 0x2000,
        Region::ExternalRam => 0x2000,
        Region::WorkRam0 => 0x1000,
        Region::WorkRamN => 0x1000,
        Region::ObjectAttributes => 160,
        Region::IoRegisters => 128,
        Region::HighRam => 127,
        Region::InterruptEnable => 1,
    }
}

/// Whether a write reaches the region (the ROM banks are read-only).
pub open spec fn writable(g: Region) -> bool {
    g != Region::RomBank0 && g != Region::RomBankN
}

/// The memory map: the region and offset of the cell behind an address, or
/// `None` where no cell answers. The two echo ranges reach the cells of the
/// work RAM banks.
pub open spec fn cell_of(address: u16) -> Option<(Region, int)> {
    let a = address as int;
    if a <= 0x3FFF {
        Some((Region::RomBank0, a))
    } else if a <= 0x7FFF {
        Some((Region::RomBankN, a - 0x4000))
    } else if a <= 0x9FFF {
        Some((Region::VideoRam, a - 0x8000))
    } else if a <= 0xBFFF {
        Some((Region::ExternalRam, a - 0xA000))
    } else if a <= 0xCFFF {
        Some((Region::WorkRam0, a - 0xC000))
    } else if a <= 0xDFFF {
        Some((Region::WorkRamN, a - 0xD000))
    } else if a <= 0xEFFF {
        Some((Region::WorkRam0, a - 0xE000))
    } else if a <= 0xFDFF {
        Some((Region::WorkRamN, a - 0xF000))
    } else if a <= 0xFE9F {
        Some((Region::ObjectAttributes, a - 0xFE00))
    } else if a <= 0xFEFF {
        None
    } else if a <= 0xFF7F {
        Some((Region::IoRegisters, a - 0xFF00))
    } else if a <= 0xFFFE {
        Some((Region::HighRam, a - 0xFF80))
    } else {
        Some((Region::InterruptEnable, 0))
    }
}

/// The byte that an address with no cell reads as.
pub const OPEN_BUS: u8 = 0xFF;

/// Finds the cell behind an address.
pub fn locate(address: u16) -> (r: Option<(Region, usize)>)
    ensures
        match r {
            Some((g, off)) => cell_of(address) == Some((g, off as int)) && off < region_len(g),
            None => cell_of(address) is None,
        },
{
    let a = address as usize;
    match address {
        0x0000..=0x3FFF => Some((Region::RomBank0, a)),
        0x4000..=0x7FFF => Some((Region::RomBankN, a - 0x4000)),
        0x8000..=0x9FFF => Some((Region::VideoRam, a - 0x8000)),
        0xA000..=0xBFFF => Some((Region::ExternalRam, a - 0xA000)),
        0xC000..=0xCFFF => Some((Region::WorkRam0, a - 0xC000)),
        0xD000..=0xDFFF => Some((Region::WorkRamN, a - 0xD000)),
        0xE000..=0xEFFF => Some((Region::WorkRam0, a - 0xE000)),
        0xF000..=0xFDFF => Some((Region::WorkRamN, a - 0xF000)),
        0xFE00..=0xFE9F => Some((Region::ObjectAttributes, a - 0xFE00)),
        0xFF00..=0xFF7F => Some((Region::IoRegisters, a - 0xFF00)),
        0xFF80..=0xFFFE => Some((Region::HighRam, a - 0xFF80)),
        0xFFFF => Some((Region::InterruptEnable, 0)),
        _ => None,
    }
}

/// The bus: one array per region, reached through the memory map.
#[derive(Clone, Debug)]
pub struct MemoryBus {
    rom_bank_00: [u8; 16384],
    rom_bank_nn: [u8; 16384],
    vram: [u8; 8192],
    ext_ram: [u8; 8192],
    wram_0: [u8; 4096],
    wram_n: [u8; 4096],
    oam: [u8; 160],
    io_registers: [u8; 128],
    hram: [u8; 127],
    interrupt: u8,
}

impl MemoryBus {
    /// The bytes a region holds.
    pub closed spec fn region(&self, g: Region) -> Seq<u8> {
        match g {
            Region::RomBank0 => self.rom_bank_00@,
            Region::RomBankN => self.rom_bank_nn@,
            Region::VideoRam => self.vram@,
            Region::ExternalRam => self.ext_ram@,
            Region::WorkRam0 => self.wram_0@,
            Region::WorkRamN => self.wram_n@,
            Region::ObjectAttributes => self.oam@,
            Region::IoRegisters => self.io_registers@,
            Region::HighRam => self.hram@,
            Region::InterruptEnable => seq![self.interrupt],
        }
    }

    /// What a read of `address` returns.
    pub open spec fn byte_at(&self, address: u16) -> u8 {
        match cell_of(address) {
            Some((g, off)) => self.region(g)[off],
            None => OPEN_BUS,
        }
    }

    /// Every region holds as many bytes as the map gives it.
    pub proof fn lemma_region_len(&self, g: Region)
        ensures
            self.region(g).len() == region_len(g),
    {
    }

    /// Every cell of every region zero.
    pub fn new() -> (r: Self)
        ensures
            forall|g: Region, i: int| 0 <= i < region_len(g) ==> #[trigger] r.region(g)[i] == 0,
    {
        MemoryBus {
            rom_bank_00: [0u8; 16384],
            rom_bank_nn: [0u8; 16384],
            vram: [0u8; 8192],
            ext_ram: [0u8; 8192],
            wram_0: [0u8; 4096],
            wram_n: [0u8; 4096],
            oam: [0u8; 160],
            io_registers: [0u8; 128],
            hram: [0u8; 127],
            interrupt: 0,
        }
    }

    /// Reads the byte at `address`; an address with no cell reads as `OPEN_BUS`.
    pub fn read_byte(&self, address: u16) -> (r: u8)
        ensures
            r == self.byte_at(address),
    {
        match locate(address) {
            Some((Region::RomBank0, off)) => self.rom_bank_00[off],
            Some((Region::RomBankN, off)) => self.rom_bank_nn[off],
            Some((Region::VideoRam, off)) => self.vram[off],
            Some((Region::ExternalRam, off)) => self.ext_ram[off],
            Some((Region::WorkRam0, off)) => self.wram_0[off],
            Some((Region::WorkRamN, off)) => self.wram_n[off],
            Some((Region::ObjectAttributes, off)) => self.oam[off],
            Some((Region::IoRegisters, off)) => self.io_registers[off],
            Some((Region::HighRam, off)) => self.hram[off],
            Some((Region::InterruptEnable, _)) => self.interrupt,
            None => OPEN_BUS,
        }
    }

    /// Writes `value` into the cell behind `address`; a write to ROM or to an
    /// address with no cell is ignored.
    pub fn write_byte(&mut self, address: u16, value: u8)
        ensures
            forall|g: Region|
                #[trigger] final(self).region(g) == match cell_of(address) {
                    Some((h, off)) => if h == g && writable(g) {
                        old(self).region(g).update(off, value)
                    } else {
                        old(self).region(g)
                    },
                    None => old(self).region(g),
                },
            final(self).contents() == MemoryBus::after_write(old(self).contents(), address, value),
    {
        match locate(address) {
            Some((Region::VideoRam, off)) => self.vram[off] = value,
            Some((Region::ExternalRam, off)) => self.ext_ram[off] = value,
            Some((Region::WorkRam0, off)) => self.wram_0[off] = value,
            Some((Region::WorkRamN, off)) => self.wram_n[off] = value,
            Some((Region::ObjectAttributes, off)) => self.oam[off] = value,
            Some((Region::IoRegisters, off)) => self.io_registers[off] = value,
            Some((Region::HighRam, off)) => self.hram[off] = value,
            Some((Region::InterruptEnable, _)) => {
                self.interrupt = value;
                assert(self.region(Region::InterruptEnable) =~= seq![value]);
            },
            _ => {},
        }
        proof {
            let after = MemoryBus::after_write(old(self).contents(), address, value);
            assert forall|i: int| 0 <= i < 0x10000 implies self.contents()[i] == after[i] by {
                if let Some((g, off)) = cell_of(i as u16) {
                    old(self).lemma_region_len(g);
                }
            }
            assert(self.contents() =~= after);
        }
    }
}

/// Whether `a` reaches the same writable cell as `b`, so that a write at `b`
/// is seen by a read at `a`.
pub open spec fn shares_writable_cell(a: u16, b: u16) -> bool {
    match cell_of(b) {
        Some((g, _)) => writable(g) && cell_of(a) == cell_of(b),
        None => false,
    }
}

impl MemoryBus {
    /// Copies a cartridge image into the two ROM banks: byte `i` of `rom` goes
    /// to address `i`, for `i` below 0x8000. Nothing else changes.
    pub fn load_rom(&mut self, rom: &[u8])
        ensures
            forall|i: int|
                0 <= i < 0x4000 ==> #[trigger] final(self).region(Region::RomBank0)[i] == if i
                    < rom@.len() {
                    rom@[i]
                } else {
                    old(self).region(Region::RomBank0)[i]
                },
            forall|i: int|
                0 <= i < 0x4000 ==> #[trigger] final(self).region(Region::RomBankN)[i] == if i
                    + 0x4000 < rom@.len() {
                    rom@[i + 0x4000]
                } else {
                    old(self).region(Region::RomBankN)[i]
                },
            forall|g: Region|
                writable(g) ==> #[trigger] final(self).region(g) == old(self).region(g),
    {
        let n: usize = if rom.len() < 0x8000 { rom.len() } else { 0x8000 };
        let mut i: usize = 0;
        while i < n
            invariant
                n <= rom@.len(),
                n <= 0x8000,
                i <= n,
                forall|j: int|
                    0 <= j < 0x4000 ==> #[trigger] self.region(Region::RomBank0)[j] == if j < i {
                        rom@[j]
                    } else {
                        old(self).region(Region::RomBank0)[j]
                    },
                forall|j: int|
                    0 <= j < 0x4000 ==> #[trigger] self.region(Region::RomBankN)[j] == if j + 0x4000
                        < i {
                        rom@[j + 0x4000]
                    } else {
                        old(self).region(Region::RomBankN)[j]
                    },
                forall|g: Region|
                    writable(g) ==> #[trigger] self.region(g) == old(self).region(g),
            decreases n - i,
        {
            let ghost low = self.region(Region::RomBank0);
            let ghost high = self.region(Region::RomBankN);
            let ghost before = *self;
            if i < 0x4000 {
                self.rom_bank_00[i] = rom[i];
                assert(self.region(Region::RomBank0) == low.update(i as int, rom@[i as int]));
            } else {
                self.rom_bank_nn[i - 0x4000] = rom[i];
                assert(self.region(Region::RomBankN) == high.update(i - 0x4000, rom@[i as int]));
            }
            assert forall|g: Region| writable(g) implies #[trigger] self.region(g) == old(
                self,
            ).region(g) by {
                assert(before.region(g) == old(self).region(g));
                match g {
                    Region::VideoRam => {},
                    Region::ExternalRam => {},
                    Region::WorkRam0 => {},
                    Region::WorkRamN => {},
                    Region::ObjectAttributes => {},
                    Region::IoRegisters => {},
                    Region::HighRam => {},
                    Region::InterruptEnable => {},
                    _ => {},
                }
            }
            i = i + 1;
        }
    }
}

impl Memory for MemoryBus {
    open spec fn contents(&self) -> Seq<u8> {
        Seq::new(0x10000, |i: int| self.byte_at(i as u16))
    }

    open spec fn after_write(contents: Seq<u8>, address: u16, value: u8) -> Seq<u8> {
        Seq::new(
            contents.len(),
            |i: int|
                if shares_writable_cell(i as u16, address) {
                    value
                } else {
                    contents[i]
                },
        )
    }

    fn read(&self, address: u16) -> (r: u8) {
        self.read_byte(address)
    }

    fn write(&mut self, address: u16, value: u8) {
        self.write_byte(address, value);
    }
}

/// A flat store: one array cell per address, every cell writable.
#[derive(Debug)]
pub struct FlatMemory {
    bytes: [u8; 65536],
}

impl FlatMemory {
    /// Every cell zero.
    pub fn new() -> (r: Self)
        ensures
            r.contents().len() == 0x10000,
            forall|i: int| 0 <= i < 0x10000 ==> #[trigger] r.contents()[i] == 0,
    {
        FlatMemory { bytes: [0u8; 65536] }
    }
}

impl Memory for FlatMemory {
    closed spec fn contents(&self) -> Seq<u8> {
        self.bytes@
    }

    open spec fn after_write(contents: Seq<u8>, address: u16, value: u8) -> Seq<u8> {
        contents.update(address as int, value)
    }

    fn read(&self, address: u16) -> (r: u8) {
        self.bytes[address as usize]
    }

    fn write(&mut self, address: u16, value: u8) {
        self.bytes[address as usize] = value;
    }
}

/// A write into work RAM is read back through its echo address, and a write
/// through an echo address is read back at the work RAM address it mirrors.
pub proof fn lemma_echo_aliasing(m: MemoryBus, address: u16, value: u8)
    requires
        0xC000 <= address <= 0xDDFF,
    ensures
        MemoryBus::after_write(m.contents(), address, value)[address + 0x2000] == value,
        MemoryBus::after_write(m.contents(), (address + 0x2000) as u16, value)[address as int]
            == value,
{
}

/// A write into ROM, or at an address with no cell, changes nothing that a read
/// can see; any other write is seen at its own address.
pub proof fn lemma_write_then_read(m: MemoryBus, address: u16, value: u8)
    ensures
        match cell_of(address) {
            Some((g, _)) => if writable(g) {
                MemoryBus::after_write(m.contents(), address, value)[address as int] == value
            } else {
                MemoryBus::after_write(m.contents(), address, value) == m.contents()
            },
            None => MemoryBus::after_write(m.contents(), address, value) == m.contents(),
        },
{
    let after = MemoryBus::after_write(m.contents(), address, value);
    match cell_of(address) {
        Some((g, _)) => if !writable(g) {
            assert(after =~= m.contents());
        },
        None => assert(after =~= m.contents()),
    }
}

/// On a bus whose regions are all zero (as `MemoryBus::new` leaves it) every
/// address with a cell reads as zero; only addresses 0xFEA0 to 0xFEFF, which
/// the map leaves without a cell, read as `OPEN_BUS`.
pub proof fn lemma_fresh_bus_reads(m: MemoryBus, address: u16)
    requires
        forall|g: Region, i: int| 0 <= i < region_len(g) ==> #[trigger] m.region(g)[i] == 0,
    ensures
        m.contents()[address as int] == if 0xFEA0 <= address <= 0xFEFF {
            OPEN_BUS
        } else {
            0
        },
{
}

} // verus!
