use vstd::prelude::*;

use crate::err::BusError;

verus! {

/// Tag carried by every bus access, propagated to devices so they can act on
/// the kind of access (for example, status registers that clear on an operand
/// read).
#[derive(Clone, Copy, Debug, PartialEq, Eq)]
pub enum AccessCode {
    InstrFetch,
    OperandFetch,
    AddressFetch,
    Write,
}

/// Little-endian halfword assembled from two consecutive bytes of memory.
pub open spec fn le_half(m: Seq<u8>, a: int) -> u16 {
    (m[a] as u16) | ((m[a + 1] as u16) << 8)
}

/// Little-endian word assembled from four consecutive bytes of memory.
pub open spec fn le_word(m: Seq<u8>, a: int) -> u32 {
    (m[a] as u32) | ((m[a + 1] as u32) << 8) | ((m[a + 2] as u32) << 16) | ((m[a + 3] as u32)
        << 24)
}

/// What a byte read at address `a` returns: the byte, or `NoDevice` when the
/// address lies outside storage.
pub open spec fn spec_read_byte(m: Seq<u8>, a: int) -> Result<u8, BusError> {
    if 0 <= a && a < m.len() {
        Ok(m[a])
    } else {
        Err(BusError::NoDevice)
    }
}

/// What a halfword read at any (possibly odd) address returns.
pub open spec fn spec_read_half_unaligned(m: Seq<u8>, a: int) -> Result<u16, BusError> {
    if 0 <= a && a + 2 <= m.len() {
        Ok(le_half(m, a))
    } else {
        Err(BusError::NoDevice)
    }
}

/// What a word read at any (possibly unaligned) address returns.
pub open spec fn spec_read_word_unaligned(m: Seq<u8>, a: int) -> Result<u32, BusError> {
    if 0 <= a && a + 4 <= m.len() {
        Ok(le_word(m, a))
    } else {
        Err(BusError::NoDevice)
    }
}

/// What an aligned halfword read returns: alignment is checked first.
pub open spec fn spec_read_half(m: Seq<u8>, a: int) -> Result<u16, BusError> {
    if a % 2 != 0 {
        Err(BusError::Alignment)
    } else {
        spec_read_half_unaligned(m, a)
    }
}

/// What an aligned word read returns: alignment is checked first.
pub open spec fn spec_read_word(m: Seq<u8>, a: int) -> Result<u32, BusError> {
    if a % 4 != 0 {
        Err(BusError::Alignment)
    } else {
        spec_read_word_unaligned(m, a)
    }
}

/// The low byte of a halfword.
pub open spec fn half_lo(v: u16) -> u8 {
    (v & 0xff) as u8
}

/// The high byte of a halfword.
pub open spec fn half_hi(v: u16) -> u8 {
    ((v >> 8) & 0xff) as u8
}

/// Byte `k` (0 = least significant) of a word.
pub open spec fn word_byte(v: u32, k: u32) -> u8 {
    ((v >> (8 * k)) & 0xff) as u8
}

/// Memory-mapped storage seen by the processor: a span of byte-addressable
/// RAM starting at address zero, of which an initial region may be marked
/// read-only once a ROM image has been loaded into it.
pub struct Bus {
    ram: Vec<u8>,
    rom_limit: usize,
}

impl View for Bus {
    type V = Seq<u8>;

    closed spec fn view(&self) -> Seq<u8> {
        self.ram@
    }
}

/// What a byte write does: the updated memory, or the failure. The address
/// must be inside storage and outside the read-only region.
pub open spec fn spec_write_byte(b: Bus, a: int, v: u8) -> Result<Seq<u8>, BusError> {
    if !(0 <= a && a < b@.len()) {
        Err(BusError::NoDevice)
    } else if a < b.rom() {
        Err(BusError::ReadOnly)
    } else {
        Ok(b@.update(a, v))
    }
}

/// What an aligned halfword write does: both bytes stored little-endian.
pub open spec fn spec_write_half(b: Bus, a: int, v: u16) -> Result<Seq<u8>, BusError> {
    if a % 2 != 0 {
        Err(BusError::Alignment)
    } else if !(0 <= a && a + 2 <= b@.len()) {
        Err(BusError::NoDevice)
    } else if a < b.rom() {
        Err(BusError::ReadOnly)
    } else {
        Ok(b@.update(a, half_lo(v)).update(a + 1, half_hi(v)))
    }
}

/// What an aligned word write does: all four bytes stored little-endian.
pub open spec fn spec_write_word(b: Bus, a: int, v: u32) -> Result<Seq<u8>, BusError> {
    if a % 4 != 0 {
        Err(BusError::Alignment)
    } else if !(0 <= a && a + 4 <= b@.len()) {
        Err(BusError::NoDevice)
    } else if a < b.rom() {
        Err(BusError::ReadOnly)
    } else {
        Ok(
            b@.update(a, word_byte(v, 0)).update(a + 1, word_byte(v, 1)).update(
                a + 2,
                word_byte(v, 2),
            ).update(a + 3, word_byte(v, 3)),
        )
    }
}

impl Bus {
    /// First address past the read-only region.
    pub closed spec fn rom(&self) -> int {
        self.rom_limit as int
    }

    /// Storage fits the 32-bit address space of the processor, with headroom
    /// at the top so that an address plus the longest operand never wraps.
    pub open spec fn wf(&self) -> bool {
        self@.len() <= 0xffff_ff00
    }

    /// Fresh bus backed by `size` bytes of zeroed RAM, none of it read-only.
    pub fn new(size: usize) -> (b: Bus)
        requires
            size <= 0xffff_ff00,
        ensures
            b.wf(),
            b@.len() == size,
            forall|i: int| 0 <= i < size ==> b@[i] == 0u8,
            b.rom() == 0,
    {
        let mut ram: Vec<u8> = Vec::new();
        while ram.len() < size
            invariant
                ram@.len() <= size,
                forall|i: int| 0 <= i < ram@.len() ==> ram@[i] == 0u8,
            decreases size - ram@.len(),
        {
            ram.push(0u8);
        }
        Bus { ram, rom_limit: 0 }
    }

    /// Number of bytes of storage on the bus.
    pub fn len(&self) -> (n: usize)
        ensures
            n == self@.len(),
    {
        self.ram.len()
    }

    /// Marks addresses below `limit` read-only, as for a loaded ROM image.
    pub fn set_rom(&mut self, limit: usize)
        ensures
            final(self)@ == old(self)@,
            final(self).rom() == limit as int,
    {
        self.rom_limit = limit;
    }

    /// Copies `data` into storage starting at `addr`. Loading bypasses the
    /// read-only mark (it is how ROM contents arrive), but a transfer that
    /// does not fit in storage fails whole with `Range`.
    pub fn load(&mut self, addr: usize, data: &[u8]) -> (r: Result<(), BusError>)
        ensures
            final(self).rom() == old(self).rom(),
            final(self)@.len() == old(self)@.len(),
            if addr + data@.len() <= old(self)@.len() {
                r == Ok::<(), BusError>(()) && (forall|i: int|
                    0 <= i < data@.len() ==> final(self)@[addr + i] == data@[i]) && (forall|i: int|
                    0 <= i < final(self)@.len() && !(addr <= i < addr + data@.len()) ==> final(self)@[i] == old(self)@[i])
            } else {
                r == Err::<(), BusError>(BusError::Range) && final(self)@ == old(self)@
            },
    {
        if addr > self.ram.len() || data.len() > self.ram.len() - addr {
            return Err(BusError::Range);
        }
        let n = self.ram.len();
        let mut i: usize = 0;
        while i < data.len()
            invariant
                i <= data@.len(),
                addr + data@.len() <= n,
                self.ram@.len() == n,
                self.ram@.len() == old(self)@.len(),
                self.rom_limit == old(self).rom_limit,
                forall|j: int| 0 <= j < i ==> self.ram@[addr + j] == data@[j],
                forall|j: int|
                    0 <= j < self.ram@.len() && !(addr <= j < addr + i) ==> self.ram@[j] == old(self)@[j],
            decreases data@.len() - i,
        {
            self.ram[addr + i] = data[i];
            i = i + 1;
        }
        Ok(())
    }

    /// Reads one byte.
    pub fn read_byte(&self, addr: usize, _access: AccessCode) -> (r: Result<u8, BusError>)
        ensures
            r == spec_read_byte(self@, addr as int),
    {
        if addr < self.ram.len() {
            Ok(self.ram[addr])
        } else {
            Err(BusError::NoDevice)
        }
    }

    /// Reads a little-endian halfword at any address.
    pub fn read_half_unaligned(&self, addr: usize, _access: AccessCode) -> (r: Result<
        u16,
        BusError,
    >)
        ensures
            r == spec_read_half_unaligned(self@, addr as int),
    {
        if addr < self.ram.len() && self.ram.len() - addr >= 2 {
            let b0 = self.ram[addr];
            let b1 = self.ram[addr + 1];
            Ok((b0 as u16) | ((b1 as u16) << 8))
        } else {
            Err(BusError::NoDevice)
        }
    }

    /// Reads a little-endian word at any address.
    pub fn read_word_unaligned(&self, addr: usize, _access: AccessCode) -> (r: Result<
        u32,
        BusError,
    >)
        ensures
            r == spec_read_word_unaligned(self@, addr as int),
    {
        if addr < self.ram.len() && self.ram.len() - addr >= 4 {
            let b0 = self.ram[addr];
            let b1 = self.ram[addr + 1];
            let b2 = self.ram[addr + 2];
            let b3 = self.ram[addr + 3];
            Ok((b0 as u32) | ((b1 as u32) << 8) | ((b2 as u32) << 16) | ((b3 as u32) << 24))
        } else {
            Err(BusError::NoDevice)
        }
    }

    /// Reads a halfword at an even address.
    pub fn read_half(&self, addr: usize, access: AccessCode) -> (r: Result<u16, BusError>)
        ensures
            r == spec_read_half(self@, addr as int),
    {
        if addr % 2 != 0 {
            Err(BusError::Alignment)
        } else {
            self.read_half_unaligned(addr, access)
        }
    }

    /// Reads a word at an address divisible by four.
    pub fn read_word(&self, addr: usize, access: AccessCode) -> (r: Result<u32, BusError>)
        ensures
            r == spec_read_word(self@, addr as int),
    {
        if addr % 4 != 0 {
            Err(BusError::Alignment)
        } else {
            self.read_word_unaligned(addr, access)
        }
    }

    /// Writes one byte.
    pub fn write_byte(&mut self, addr: usize, val: u8) -> (r: Result<(), BusError>)
        ensures
            final(self).rom() == old(self).rom(),
            final(self)@.len() == old(self)@.len(),
            match r {
                Ok(()) => spec_write_byte(*old(self), addr as int, val) == Ok::<Seq<u8>, BusError>(
                    final(self)@,
                ),
                Err(e) => spec_write_byte(*old(self), addr as int, val) == Err::<
                    Seq<u8>,
                    BusError,
                >(e) && final(self)@ == old(self)@,
            },
    {
        if addr >= self.ram.len() {
            Err(BusError::NoDevice)
        } else if addr < self.rom_limit {
            Err(BusError::ReadOnly)
        } else {
            self.ram[addr] = val;
            Ok(())
        }
    }

    /// Writes a halfword, little-endian, at an even address.
    pub fn write_half(&mut self, addr: usize, val: u16) -> (r: Result<(), BusError>)
        ensures
            final(self).rom() == old(self).rom(),
            final(self)@.len() == old(self)@.len(),
            match r {
                Ok(()) => spec_write_half(*old(self), addr as int, val) == Ok::<Seq<u8>, BusError>(
                    final(self)@,
                ),
                Err(e) => spec_write_half(*old(self), addr as int, val) == Err::<
                    Seq<u8>,
                    BusError,
                >(e) && final(self)@ == old(self)@,
            },
    {
        if addr % 2 != 0 {
            Err(BusError::Alignment)
        } else if addr >= self.ram.len() || self.ram.len() - addr < 2 {
            Err(BusError::NoDevice)
        } else if addr < self.rom_limit {
            Err(BusError::ReadOnly)
        } else {
            proof {
                assert((val & 0xff) < 0x100) by (bit_vector);
                assert(((val >> 8) & 0xff) < 0x100) by (bit_vector);
            }
            self.ram[addr] = (val & 0xff) as u8;
            self.ram[addr + 1] = ((val >> 8) & 0xff) as u8;
            Ok(())
        }
    }

    /// Writes a word, little-endian, at an address divisible by four.
    pub fn write_word(&mut self, addr: usize, val: u32) -> (r: Result<(), BusError>)
        ensures
            final(self).rom() == old(self).rom(),
            final(self)@.len() == old(self)@.len(),
            match r {
                Ok(()) => spec_write_word(*old(self), addr as int, val) == Ok::<Seq<u8>, BusError>(
                    final(self)@,
                ),
                Err(e) => spec_write_word(*old(self), addr as int, val) == Err::<
                    Seq<u8>,
                    BusError,
                >(e) && final(self)@ == old(self)@,
            },
    {
        if addr % 4 != 0 {
            Err(BusError::Alignment)
        } else if addr >= self.ram.len() || self.ram.len() - addr < 4 {
            Err(BusError::NoDevice)
        } else if addr < self.rom_limit {
            Err(BusError::ReadOnly)
        } else {
            proof {
                assert((val & 0xff) < 0x100) by (bit_vector);
                assert(((val >> 8) & 0xff) < 0x100) by (bit_vector);
                assert(((val >> 16) & 0xff) < 0x100) by (bit_vector);
                assert(((val >> 24) & 0xff) < 0x100) by (bit_vector);
                assert((val >> (8 * 0u32)) & 0xff == val & 0xff) by (bit_vector);
            }
            self.ram[addr] = (val & 0xff) as u8;
            self.ram[addr + 1] = ((val >> 8) & 0xff) as u8;
            self.ram[addr + 2] = ((val >> 16) & 0xff) as u8;
            self.ram[addr + 3] = ((val >> 24) & 0xff) as u8;
            Ok(())
        }
    }
}

/// The four bytes a word is stored as reassemble little-endian to the
/// word.
pub proof fn lemma_word_roundtrip(v: u32)
    ensures
        (word_byte(v, 0) as u32) | ((word_byte(v, 1) as u32) << 8) | ((word_byte(v, 2) as u32)
            << 16) | ((word_byte(v, 3) as u32) << 24) == v,
{
    assert(((((v >> (8 * 0u32)) & 0xff) as u8) as u32) | (((((v >> (8 * 1u32)) & 0xff) as u8) as u32)
        << 8) | (((((v >> (8 * 2u32)) & 0xff) as u8) as u32) << 16) | (((((v >> (8 * 3u32))
        & 0xff) as u8) as u32) << 24) == v) by (bit_vector);
}

/// The two bytes a halfword is stored as reassemble little-endian to the
/// halfword.
pub proof fn lemma_half_roundtrip(v: u16)
    ensures
        (half_lo(v) as u16) | ((half_hi(v) as u16) << 8) == v,
{
    assert((((v & 0xff) as u8) as u16) | (((((v >> 8) & 0xff) as u8) as u16) << 8) == v)
        by (bit_vector);
}

/// Round trip through memory: reading back a word just written at the same
/// address returns exactly the value written.
pub proof fn lemma_write_read_word(b: Bus, a: int, v: u32)
    ensures
        spec_write_word(b, a, v) matches Ok(m2) ==> spec_read_word(m2, a) == Ok::<u32, BusError>(v),
{
    match spec_write_word(b, a, v) {
        Ok(m2) => {
            assert(m2[a] == word_byte(v, 0));
            assert(m2[a + 1] == word_byte(v, 1));
            assert(m2[a + 2] == word_byte(v, 2));
            assert(m2[a + 3] == word_byte(v, 3));
            lemma_word_roundtrip(v);
        },
        Err(_) => {},
    }
}

/// Round trip through memory for halfwords.
pub proof fn lemma_write_read_half(b: Bus, a: int, v: u16)
    ensures
        spec_write_half(b, a, v) matches Ok(m2) ==> spec_read_half(m2, a) == Ok::<u16, BusError>(v),
{
    match spec_write_half(b, a, v) {
        Ok(m2) => {
            assert(m2[a] == half_lo(v));
            assert(m2[a + 1] == half_hi(v));
            lemma_half_roundtrip(v);
        },
        Err(_) => {},
    }
}

} // verus!
