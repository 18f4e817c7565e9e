//! The byte-addressable store of the machine: 4096 bytes, of which the low
//! region is reserved for the interpreter and holds the built-in font
//! sprites, while the region from `ROM_OFFSET` up holds the loaded program.
//! Program-visible reads and writes are region-checked: an access below
//! `ROM_OFFSET` is refused as reserved, an access past the last byte as
//! unmapped.

use vstd::prelude::*;

verus! {

/// Total number of addressable bytes.
pub const RAM_SIZE: usize = 0x1000;
/// First address a program may read or write; programs are loaded here.
pub const ROM_OFFSET: usize = 0x200;
/// Where the built-in font sprites are installed, inside the reserved region.
pub const FONT_OFFSET: usize = 0x100;
/// Five bytes for each of the sixteen hexadecimal digit sprites.
pub const FONT_SIZE: usize = 80;

/// Why a memory access was refused.
#[derive(Clone, Copy, Debug, PartialEq, Eq, Structural)]
pub enum MemoryError {
    /// The address lies in the interpreter-reserved low region.
    ReservedAddress(usize),
    /// The address lies past the end of the address space.
    UnmappedAddress(usize),
}

/// The error that a program-visible access to `addr` outside the open
/// region yields.
pub open spec fn spec_mem_err(addr: int) -> MemoryError {
    if addr < ROM_OFFSET {
        MemoryError::ReservedAddress(addr as usize)
    } else {
        MemoryError::UnmappedAddress(addr as usize)
    }
}

/// Whether a program-visible access to `addr` is allowed.
pub open spec fn addr_open(addr: int) -> bool {
    ROM_OFFSET <= addr < RAM_SIZE
}

/// What a program-visible single-byte read returns.
pub open spec fn spec_read_byte(m: Seq<u8>, addr: int) -> Result<u8, MemoryError> {
    if addr_open(addr) {
        Ok(m[addr])
    } else {
        Err(spec_mem_err(addr))
    }
}

/// What a program-visible single-byte write returns: the updated contents,
/// or the region error, in which case nothing changes.
pub open spec fn spec_write_byte(m: Seq<u8>, addr: int, val: u8) -> Result<Seq<u8>, MemoryError> {
    if addr_open(addr) {
        Ok(m.update(addr, val))
    } else {
        Err(spec_mem_err(addr))
    }
}

/// What a program-visible two-byte big-endian read returns: the byte at
/// `addr` is the high half, the byte at `addr + 1` the low half.
pub open spec fn spec_read_word(m: Seq<u8>, addr: int) -> Result<u16, MemoryError> {
    match spec_read_byte(m, addr) {
        Err(e) => Err(e),
        Ok(hi) => match spec_read_byte(m, addr + 1) {
            Err(e) => Err(e),
            Ok(lo) => Ok((hi * 256 + lo) as u16),
        },
    }
}

/// The built-in font: sixteen 8x5 digit sprites, one row per byte.
pub open spec fn font() -> Seq<u8> {
    seq![
        0xF0u8, 0x90, 0x90, 0x90, 0xF0, // 0
        0x20, 0x60, 0x20, 0x20, 0x70, // 1
        0xF0, 0x10, 0xF0, 0x80, 0xF0, // 2
        0xF0, 0x10, 0xF0, 0x10, 0xF0, // 3
        0x90, 0x90, 0xF0, 0x10, 0x10, // 4
        0xF0, 0x80, 0xF0, 0x10, 0xF0, // 5
        0xF0, 0x80, 0xF0, 0x90, 0xF0, // 6
        0xF0, 0x10, 0x20, 0x40, 0x40, // 7
        0xF0, 0x90, 0xF0, 0x90, 0xF0, // 8
        0xF0, 0x90, 0xF0, 0x10, 0xF0, // 9
        0xF0, 0x90, 0xF0, 0x90, 0x90, // A
        0xE0, 0x90, 0xE0, 0x90, 0xE0, // B
        0xF0, 0x80, 0x80, 0x80, 0xF0, // C
        0xE0, 0x90, 0x90, 0x90, 0xE0, // D
        0xF0, 0x80, 0xF0, 0x80, 0xF0, // E
        0xF0, 0x80, 0xF0, 0x80, 0x80, // F
    ]
}

/// Builds the font table as a byte vector.
fn font_sprites() -> (v: Vec<u8>)
    ensures
        v@ == font(),
{
    let mut v: Vec<u8> = Vec::new();
    v.push(0xF0); v.push(0x90); v.push(0x90); v.push(0x90); v.push(0xF0);
    v.push(0x20); v.push(0x60); v.push(0x20); v.push(0x20); v.push(0x70);
    v.push(0xF0); v.push(0x10); v.push(0xF0); v.push(0x80); v.push(0xF0);
    v.push(0xF0); v.push(0x10); v.push(0xF0); v.push(0x10); v.push(0xF0);
    v.push(0x90); v.push(0x90); v.push(0xF0); v.push(0x10); v.push(0x10);
    v.push(0xF0); v.push(0x80); v.push(0xF0); v.push(0x10); v.push(0xF0);
    v.push(0xF0); v.push(0x80); v.push(0xF0); v.push(0x90); v.push(0xF0);
    v.push(0xF0); v.push(0x10); v.push(0x20); v.push(0x40); v.push(0x40);
    v.push(0xF0); v.push(0x90); v.push(0xF0); v.push(0x90); v.push(0xF0);
    v.push(0xF0); v.push(0x90); v.push(0xF0); v.push(0x10); v.push(0xF0);
    v.push(0xF0); v.push(0x90); v.push(0xF0); v.push(0x90); v.push(0x90);
    v.push(0xE0); v.push(0x90); v.push(0xE0); v.push(0x90); v.push(0xE0);
    v.push(0xF0); v.push(0x80); v.push(0x80); v.push(0x80); v.push(0xF0);
    v.push(0xE0); v.push(0x90); v.push(0x90); v.push(0x90); v.push(0xE0);
    v.push(0xF0); v.push(0x80); v.push(0xF0); v.push(0x80); v.push(0xF0);
    v.push(0xF0); v.push(0x80); v.push(0xF0); v.push(0x80); v.push(0x80);
    assert(v@ =~= font());
    v
}

/// The flat byte store. Its view is the sequence of all `RAM_SIZE` bytes.
pub struct Memory {
    ram: Vec<u8>,
}

impl View for Memory {
    type V = Seq<u8>;

    closed spec fn view(&self) -> Seq<u8> {
        self.ram@
    }
}

impl Memory {
    /// The store always holds exactly `RAM_SIZE` bytes.
    pub open spec fn inv(&self) -> bool {
        self@.len() == RAM_SIZE
    }

    /// A fresh store: all zero except for the font table at `FONT_OFFSET`.
    pub fn new() -> (m: Memory)
        ensures
            m.inv(),
            forall|a: int|
                FONT_OFFSET <= a < FONT_OFFSET + FONT_SIZE ==> m@[a] == font()[a - FONT_OFFSET],
            forall|a: int|
                0 <= a < RAM_SIZE && !(FONT_OFFSET <= a < FONT_OFFSET + FONT_SIZE) ==> m@[a]
                    == 0u8,
    {
        let mut ram: Vec<u8> = Vec::new();
        let mut k: usize = 0;
        while k < RAM_SIZE
            invariant
                k <= RAM_SIZE,
                ram@.len() == k,
                forall|a: int| 0 <= a < k ==> ram@[a] == 0u8,
            decreases RAM_SIZE - k,
        {
            ram.push(0u8);
            k = k + 1;
        }
        let mut mem = Memory { ram };
        let sprites = font_sprites();
        mem.load_in_ram(&sprites, FONT_OFFSET);
        mem
    }

    /// Copies `data` into the store starting at `offset`, raw and
    /// unchecked against the reserved region; whatever does not fit before
    /// the end of the store is silently dropped.
    pub fn load_in_ram(&mut self, data: &Vec<u8>, offset: usize)
        requires
            old(self).inv(),
        ensures
            final(self).inv(),
            forall|a: int|
                0 <= a < RAM_SIZE ==> final(self)@[a] == (if offset <= a < offset + data@.len() {
                    data@[a - offset]
                } else {
                    old(self)@[a]
                }),
    {
        if offset >= RAM_SIZE {
            return ;
        }
        let room = RAM_SIZE - offset;
        let count = if data.len() < room {
            data.len()
        } else {
            room
        };
        let mut j: usize = 0;
        while j < count
            invariant
                j <= count,
                count <= data@.len(),
                offset + count <= RAM_SIZE,
                self@.len() == RAM_SIZE,
                forall|a: int|
                    0 <= a < RAM_SIZE ==> self@[a] == (if offset <= a < offset + j {
                        data@[a - offset]
                    } else {
                        old(self)@[a]
                    }),
            decreases count - j,
        {
            self.ram[offset + j] = data[j];
            j = j + 1;
        }
    }

    /// A copy of the full contents, for persistence by a caller.
    pub fn dump(&self) -> (r: Vec<u8>)
        ensures
            r@ == self@,
    {
        let mut r: Vec<u8> = Vec::new();
        let mut j: usize = 0;
        while j < self.ram.len()
            invariant
                j <= self.ram@.len(),
                r@ == self.ram@.subrange(0, j as int),
            decreases self.ram@.len() - j,
        {
            r.push(self.ram[j]);
            j = j + 1;
        }
        assert(r@ =~= self@);
        r
    }

    /// Reads one byte, region-checked.
    pub fn read_byte(&self, addr: usize) -> (r: Result<u8, MemoryError>)
        requires
            self.inv(),
        ensures
            r == spec_read_byte(self@, addr as int),
    {
        if addr < ROM_OFFSET {
            Err(MemoryError::ReservedAddress(addr))
        } else if addr >= RAM_SIZE {
            Err(MemoryError::UnmappedAddress(addr))
        } else {
            Ok(self.ram[addr])
        }
    }

    /// Writes one byte, region-checked; on a refusal nothing changes.
    pub fn write_byte(&mut self, addr: usize, val: u8) -> (r: Result<(), MemoryError>)
        requires
            old(self).inv(),
        ensures
            final(self).inv(),
            match spec_write_byte(old(self)@, addr as int, val) {
                Ok(m) => r is Ok && final(self)@ == m,
                Err(e) => r == Err::<(), MemoryError>(e) && final(self)@ == old(self)@,
            },
    {
        if addr < ROM_OFFSET {
            Err(MemoryError::ReservedAddress(addr))
        } else if addr >= RAM_SIZE {
            Err(MemoryError::UnmappedAddress(addr))
        } else {
            self.ram[addr] = val;
            Ok(())
        }
    }

    /// Reads a big-endian two-byte word, region-checked byte by byte.
    pub fn read_word(&self, addr: usize) -> (r: Result<u16, MemoryError>)
        requires
            self.inv(),
        ensures
            r == spec_read_word(self@, addr as int),
    {
        let hi = match self.read_byte(addr) {
            Ok(b) => b,
            Err(e) => {
                return Err(e);
            },
        };
        let lo = match self.read_byte(addr + 1) {
            Ok(b) => b,
            Err(e) => {
                return Err(e);
            },
        };
        Ok((hi as u16) * 256 + (lo as u16))
    }
}

} // verus!
