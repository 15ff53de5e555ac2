use vstd::prelude::*;
use crate::decode::Width;

verus! {

/// A contiguous run of bytes starting at `base`.
pub struct Region {
    pub base: u32,
    pub data: Vec<u8>,
}

pub struct RegionView {
    pub base: u32,
    pub data: Seq<u8>,
}

impl View for Region {
    type V = RegionView;

    open spec fn view(&self) -> RegionView {
        RegionView { base: self.base, data: self.data@ }
    }
}

impl RegionView {
    /// The region ends at or below the top of the 32-bit address space.
    pub open spec fn wf(self) -> bool {
        self.base as int + self.data.len() <= 0x1_0000_0000
    }

    pub open spec fn covers(self, addr: u32, n: nat) -> bool {
        addr >= self.base && addr as int - self.base as int + n <= self.data.len()
    }
}

/// Which of the image's regions an address falls in.
#[derive(Clone, Copy, Debug, PartialEq, Eq, Structural)]
pub enum RegionId {
    Input,
    Output,
    Ram,
}

/// The program image: read-only code words from `code_base` on, and three
/// writable regions: the input window, the output window and general memory.
pub struct ProgramImage {
    code_base: u32,
    code: Vec<u32>,
    input: Region,
    output: Region,
    ram: Region,
}

pub struct ImageView {
    pub code_base: u32,
    pub code: Seq<u32>,
    pub input: RegionView,
    pub output: RegionView,
    pub ram: RegionView,
}

impl View for ProgramImage {
    type V = ImageView;

    closed spec fn view(&self) -> ImageView {
        ImageView {
            code_base: self.code_base,
            code: self.code@,
            input: self.input@,
            output: self.output@,
            ram: self.ram@,
        }
    }
}

/// Reasons a program image cannot be built.
#[derive(Clone, Copy, Debug, PartialEq, Eq, Structural)]
pub enum LoadError {
    CodeOutOfRange,
    RegionOutOfRange(RegionId),
}

pub open spec fn width_bytes(w: Width) -> nat {
    match w {
        Width::Byte | Width::ByteU => 1,
        Width::Half | Width::HalfU => 2,
        Width::Word => 4,
    }
}

/// Little-endian value of `n` bytes at `off`.
pub open spec fn le_read(d: Seq<u8>, off: int, n: nat) -> u32 {
    if n == 1 {
        d[off] as u32
    } else if n == 2 {
        d[off] as u32 | (d[off + 1] as u32) << 8
    } else {
        d[off] as u32 | (d[off + 1] as u32) << 8 | (d[off + 2] as u32) << 16 | (d[off + 3] as u32) << 24
    }
}

/// `d` with the low `n` bytes of `v` written little-endian at `off`.
pub open spec fn le_write(d: Seq<u8>, off: int, n: nat, v: u32) -> Seq<u8> {
    if n == 1 {
        d.update(off, v as u8)
    } else if n == 2 {
        d.update(off, v as u8).update(off + 1, (v >> 8) as u8)
    } else {
        d.update(off, v as u8).update(off + 1, (v >> 8) as u8).update(off + 2, (v >> 16) as u8).update(
            off + 3,
            (v >> 24) as u8,
        )
    }
}

impl ImageView {
    pub open spec fn wf(self) -> bool {
        &&& self.code_base as int + 4 * self.code.len() <= 0x1_0000_0000
        &&& self.input.wf()
        &&& self.output.wf()
        &&& self.ram.wf()
    }

    pub open spec fn region(self, id: RegionId) -> RegionView {
        match id {
            RegionId::Input => self.input,
            RegionId::Output => self.output,
            RegionId::Ram => self.ram,
        }
    }

    /// The first region, in the order input, output, general memory, that
    /// holds all `n` bytes from `addr`.
    pub open spec fn locate(self, addr: u32, n: nat) -> Option<RegionId> {
        if self.input.covers(addr, n) {
            Some(RegionId::Input)
        } else if self.output.covers(addr, n) {
            Some(RegionId::Output)
        } else if self.ram.covers(addr, n) {
            Some(RegionId::Ram)
        } else {
            None
        }
    }

    /// The instruction word at `pc`, if `pc` is an aligned code address.
    pub open spec fn fetch(self, pc: u32) -> Option<u32> {
        if pc >= self.code_base && (pc - self.code_base) % 4 == 0 && ((pc - self.code_base) / 4)
            < self.code.len() {
            Some(self.code[(pc - self.code_base) / 4])
        } else {
            None
        }
    }

    /// The `n`-byte value at `addr`; `None` when unaligned or unmapped.
    pub open spec fn read(self, addr: u32, n: nat) -> Option<u32> {
        if addr as int % n as int != 0 {
            None
        } else {
            match self.locate(addr, n) {
                Some(id) => Some(le_read(self.region(id).data, addr - self.region(id).base, n)),
                None => None,
            }
        }
    }

    pub open spec fn with_region(self, id: RegionId, r: RegionView) -> ImageView {
        match id {
            RegionId::Input => ImageView { input: r, ..self },
            RegionId::Output => ImageView { output: r, ..self },
            RegionId::Ram => ImageView { ram: r, ..self },
        }
    }

    /// The image after writing the low `n` bytes of `v` at `addr`; `None`
    /// when unaligned or unmapped.
    pub open spec fn write(self, addr: u32, n: nat, v: u32) -> Option<ImageView> {
        if addr as int % n as int != 0 {
            None
        } else {
            match self.locate(addr, n) {
                Some(id) => {
                    let r = self.region(id);
                    Some(
                        self.with_region(
                            id,
                            RegionView { base: r.base, data: le_write(r.data, addr - r.base, n, v) },
                        ),
                    )
                },
                None => None,
            }
        }
    }
}

impl Region {
    fn covers(&self, addr: u32, n: u32) -> (r: bool)
        requires
            self@.wf(),
            n <= 4,
        ensures
            r == self@.covers(addr, n as nat),
    {
        addr >= self.base && (addr - self.base) as usize <= self.data.len() && self.data.len() - ((
        addr - self.base) as usize) >= n as usize
    }

    fn read_at(&self, off: usize, n: u32) -> (r: u32)
        requires
            n == 1 || n == 2 || n == 4,
            off + n <= self.data@.len(),
        ensures
            r == le_read(self.data@, off as int, n as nat),
    {
        let _len = self.data.len();
        if n == 1 {
            self.data[off] as u32
        } else if n == 2 {
            self.data[off] as u32 | (self.data[off + 1] as u32) << 8
        } else {
            self.data[off] as u32 | (self.data[off + 1] as u32) << 8 | (self.data[off + 2] as u32)
                << 16 | (self.data[off + 3] as u32) << 24
        }
    }

    fn write_at(&mut self, off: usize, n: u32, v: u32)
        requires
            n == 1 || n == 2 || n == 4,
            off + n <= old(self).data@.len(),
        ensures
            final(self).base == old(self).base,
            final(self).data@ == le_write(old(self).data@, off as int, n as nat, v),
    {
        let _len = self.data.len();
        self.data.set(off, (v & 0xff) as u8);
        assert((v & 0xff) as u8 == v as u8) by (bit_vector);
        if n >= 2 {
            self.data.set(off + 1, ((v >> 8) & 0xff) as u8);
            assert(((v >> 8) & 0xff) as u8 == (v >> 8) as u8) by (bit_vector);
        }
        if n == 4 {
            self.data.set(off + 2, ((v >> 16) & 0xff) as u8);
            self.data.set(off + 3, ((v >> 24) & 0xff) as u8);
            assert(((v >> 16) & 0xff) as u8 == (v >> 16) as u8) by (bit_vector);
            assert(((v >> 24) & 0xff) as u8 == (v >> 24) as u8) by (bit_vector);
        }
    }
}

impl ProgramImage {
    pub open spec fn wf(&self) -> bool {
        self@.wf()
    }

    /// Builds an image; fails when the code or a region runs past the top of
    /// the address space.
    pub fn new(code_base: u32, code: Vec<u32>, input: Region, output: Region, ram: Region) -> (r:
        Result<ProgramImage, LoadError>)
        ensures
            match r {
                Ok(img) => img@ == (ImageView {
                    code_base,
                    code: code@,
                    input: input@,
                    output: output@,
                    ram: ram@,
                }) && img.wf(),
                Err(e) => e == if !(code_base as int + 4 * code@.len() <= 0x1_0000_0000) {
                    LoadError::CodeOutOfRange
                } else if !input@.wf() {
                    LoadError::RegionOutOfRange(RegionId::Input)
                } else if !output@.wf() {
                    LoadError::RegionOutOfRange(RegionId::Output)
                } else {
                    LoadError::RegionOutOfRange(RegionId::Ram)
                },
            },
            r is Ok <==> (ImageView {
                code_base,
                code: code@,
                input: input@,
                output: output@,
                ram: ram@,
            }).wf(),
    {
        if code.len() > 0x4000_0000 || (code.len() as u64) * 4 > 0x1_0000_0000u64 - code_base as u64 {
            return Err(LoadError::CodeOutOfRange);
        }
        if !Self::fits(&input) {
            return Err(LoadError::RegionOutOfRange(RegionId::Input));
        }
        if !Self::fits(&output) {
            return Err(LoadError::RegionOutOfRange(RegionId::Output));
        }
        if !Self::fits(&ram) {
            return Err(LoadError::RegionOutOfRange(RegionId::Ram));
        }
        Ok(ProgramImage { code_base, code, input, output, ram })
    }

    fn fits(r: &Region) -> (b: bool)
        ensures
            b == r@.wf(),
    {
        (r.data.len() as u64) <= 0x1_0000_0000u64 - r.base as u64
    }

    /// Whether the code and every region end within the address space.
    pub fn check_wf(&self) -> (r: bool)
        ensures
            r == self.wf(),
    {
        self.code.len() <= 0x4000_0000 && (self.code.len() as u64) * 4 <= 0x1_0000_0000u64
            - self.code_base as u64 && Self::fits(&self.input) && Self::fits(&self.output)
            && Self::fits(&self.ram)
    }

    /// A copy of the image.
    pub fn copy(&self) -> (r: ProgramImage)
        ensures
            r@ == self@,
    {
        ProgramImage {
            code_base: self.code_base,
            code: self.code.clone(),
            input: Region { base: self.input.base, data: self.input.data.clone() },
            output: Region { base: self.output.base, data: self.output.data.clone() },
            ram: Region { base: self.ram.base, data: self.ram.data.clone() },
        }
    }

    pub fn code_base(&self) -> (r: u32)
        ensures
            r == self@.code_base,
    {
        self.code_base
    }

    pub fn region(&self, id: RegionId) -> (r: &Region)
        ensures
            r@ == self@.region(id),
    {
        match id {
            RegionId::Input => &self.input,
            RegionId::Output => &self.output,
            RegionId::Ram => &self.ram,
        }
    }

    fn locate(&self, addr: u32, n: u32) -> (r: Option<RegionId>)
        requires
            self.wf(),
            n <= 4,
        ensures
            r == self@.locate(addr, n as nat),
    {
        if self.input.covers(addr, n) {
            Some(RegionId::Input)
        } else if self.output.covers(addr, n) {
            Some(RegionId::Output)
        } else if self.ram.covers(addr, n) {
            Some(RegionId::Ram)
        } else {
            None
        }
    }

    /// The instruction word at `pc`.
    pub fn fetch(&self, pc: u32) -> (r: Option<u32>)
        requires
            self.wf(),
        ensures
            r == self@.fetch(pc),
    {
        if pc >= self.code_base && (pc - self.code_base) % 4 == 0 && (((pc - self.code_base) / 4)
            as usize) < self.code.len() {
            Some(self.code[((pc - self.code_base) / 4) as usize])
        } else {
            None
        }
    }

    /// Reads `n` (1, 2 or 4) bytes little-endian at an aligned mapped address.
    pub fn read(&self, addr: u32, n: u32) -> (r: Option<u32>)
        requires
            self.wf(),
            n == 1 || n == 2 || n == 4,
        ensures
            r == self@.read(addr, n as nat),
    {
        if addr % n != 0 {
            return None;
        }
        match self.locate(addr, n) {
            Some(id) => {
                let reg = self.region(id);
                Some(reg.read_at((addr - reg.base) as usize, n))
            },
            None => None,
        }
    }

    /// Writes the low `n` (1, 2 or 4) bytes of `v` at an aligned mapped
    /// address; returns false and changes nothing otherwise.
    pub fn write(&mut self, addr: u32, n: u32, v: u32) -> (ok: bool)
        requires
            old(self).wf(),
            n == 1 || n == 2 || n == 4,
        ensures
            final(self).wf(),
            match old(self)@.write(addr, n as nat, v) {
                Some(m) => ok && final(self)@ == m,
                None => !ok && final(self)@ == old(self)@,
            },
    {
        if addr % n != 0 {
            return false;
        }
        match self.locate(addr, n) {
            Some(RegionId::Input) => {
                let off = (addr - self.input.base) as usize;
                self.input.write_at(off, n, v);
            },
            Some(RegionId::Output) => {
                let off = (addr - self.output.base) as usize;
                self.output.write_at(off, n, v);
            },
            Some(RegionId::Ram) => {
                let off = (addr - self.ram.base) as usize;
                self.ram.write_at(off, n, v);
            },
            None => {
                return false;
            },
        }
        true
    }
}

} // verus!
