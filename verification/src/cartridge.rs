//! Game cartridges: header parsing, memory bank controllers (MBC1, MBC2,
//! MBC3 with real time clock, MBC5) and battery-backed RAM.
use vstd::prelude::*;

verus! {

/// Why a cartridge image was rejected.
#[derive(Clone, Copy, PartialEq, Eq, Structural, Debug)]
pub enum Error {
    /// The header's ROM size byte is not a known size.
    InvalidRomSize,
    /// The header's RAM size byte is not a known size.
    InvalidRamSize,
    /// The title holds bytes that are not ASCII.
    NonAsciiTitleString,
    /// The header names a memory bank controller that is not emulated.
    UnsupportedMBC,
}

/// Another name for [`Error`]: the error of cartridge initialization.
pub type CartridgeInitError = Error;

impl Error {
    /// The description of each error.
    pub open spec fn spec_message(&self) -> Seq<char> {
        match self {
            Error::InvalidRomSize => "invalid ROM size in cartridge header"@,
            Error::InvalidRamSize => "invalid RAM size in cartridge header"@,
            Error::NonAsciiTitleString => "invalid title string in cartridge header, contains non ASCII characters"@,
            Error::UnsupportedMBC => "unsupported MBC"@,
        }
    }

    /// A human readable description of the error.
    pub fn message(&self) -> (r: &'static str)
        ensures
            r@ == self.spec_message(),
    {
        match self {
            Error::InvalidRomSize => "invalid ROM size in cartridge header",
            Error::InvalidRamSize => "invalid RAM size in cartridge header",
            Error::NonAsciiTitleString => "invalid title string in cartridge header, contains non ASCII characters",
            Error::UnsupportedMBC => "unsupported MBC",
        }
    }
}

/// ROM sizes a header can declare: 32 KiB shifted left by the code.
#[derive(Clone, Copy, PartialEq, Eq, Structural, Debug)]
pub enum ROMSize {
    Kb32,
    Kb64,
    Kb128,
    Kb256,
    Kb512,
    Mb1,
    Mb2,
    Mb4,
    Mb8,
}

/// Bytes in a ROM bank.
pub const ROM_BANK_SIZE: u32 = 0x4000;
/// Bytes in a RAM bank.
pub const RAM_BANK_SIZE: u32 = 0x2000;

impl ROMSize {
    /// The header code of the size.
    pub open spec fn spec_code(self) -> u8 {
        match self {
            ROMSize::Kb32 => 0,
            ROMSize::Kb64 => 1,
            ROMSize::Kb128 => 2,
            ROMSize::Kb256 => 3,
            ROMSize::Kb512 => 4,
            ROMSize::Mb1 => 5,
            ROMSize::Mb2 => 6,
            ROMSize::Mb4 => 7,
            ROMSize::Mb8 => 8,
        }
    }

    /// Bytes of ROM.
    pub open spec fn spec_size_bytes(self) -> u32 {
        (0x8000u32 << self.spec_code()) as u32
    }

    /// Mask of valid bank numbers (number of banks minus one).
    pub open spec fn spec_mask(self) -> u16 {
        ((2u16 << self.spec_code()) - 1) as u16
    }

    /// Parses header byte 0x148.
    pub open spec fn spec_from_byte(b: u8) -> Option<ROMSize> {
        if b == 0 { Some(ROMSize::Kb32) }
        else if b == 1 { Some(ROMSize::Kb64) }
        else if b == 2 { Some(ROMSize::Kb128) }
        else if b == 3 { Some(ROMSize::Kb256) }
        else if b == 4 { Some(ROMSize::Kb512) }
        else if b == 5 { Some(ROMSize::Mb1) }
        else if b == 6 { Some(ROMSize::Mb2) }
        else if b == 7 { Some(ROMSize::Mb4) }
        else if b == 8 { Some(ROMSize::Mb8) }
        else { None }
    }

    fn code(self) -> (r: u8)
        ensures
            r == self.spec_code(),
            r <= 8,
    {
        match self {
            ROMSize::Kb32 => 0,
            ROMSize::Kb64 => 1,
            ROMSize::Kb128 => 2,
            ROMSize::Kb256 => 3,
            ROMSize::Kb512 => 4,
            ROMSize::Mb1 => 5,
            ROMSize::Mb2 => 6,
            ROMSize::Mb4 => 7,
            ROMSize::Mb8 => 8,
        }
    }

    /// Parses the ROM size byte of the header.
    fn new(rom: &Vec<u8>) -> (r: Result<Self, Error>)
        requires
            rom.len() > 0x149,
        ensures
            r == (match Self::spec_from_byte(rom@[0x148]) {
                Some(s) => Ok(s),
                None => Err(Error::InvalidRomSize),
            }),
    {
        let b = rom[0x148];
        if b == 0 { Ok(ROMSize::Kb32) }
        else if b == 1 { Ok(ROMSize::Kb64) }
        else if b == 2 { Ok(ROMSize::Kb128) }
        else if b == 3 { Ok(ROMSize::Kb256) }
        else if b == 4 { Ok(ROMSize::Kb512) }
        else if b == 5 { Ok(ROMSize::Mb1) }
        else if b == 6 { Ok(ROMSize::Mb2) }
        else if b == 7 { Ok(ROMSize::Mb4) }
        else if b == 8 { Ok(ROMSize::Mb8) }
        else { Err(Error::InvalidRomSize) }
    }

    /// Bytes of ROM: at most 0x80_0000.
    fn size_bytes(self) -> (r: u32)
        ensures
            r == self.spec_size_bytes(),
            0x8000 <= r <= 0x80_0000,
    {
        let c = self.code();
        assert(c <= 8 ==> 0x8000u32 <= 0x8000u32 << c <= 0x80_0000u32) by (bit_vector);
        0x8000u32 << c
    }

    /// Mask of bank numbers: at most 0x1FF.
    fn mask(self) -> (r: u16)
        ensures
            r == self.spec_mask(),
            1 <= r <= 0x1FF,
    {
        let c = self.code();
        assert(c <= 8 ==> 2 <= 2u16 << c <= 0x200u16) by (bit_vector);
        (2u16 << c) - 1
    }
}

/// RAM sizes a header can declare.
#[derive(Clone, Copy, PartialEq, Eq, Structural, Debug)]
pub enum RAMSize {
    NoRAM,
    Kb8,
    Kb32,
    Kb128,
    Kb64,
}

impl RAMSize {
    /// Parses header byte 0x149.
    pub open spec fn spec_from_byte(b: u8) -> Option<RAMSize> {
        if b == 0 { Some(RAMSize::NoRAM) }
        else if b == 2 { Some(RAMSize::Kb8) }
        else if b == 3 { Some(RAMSize::Kb32) }
        else if b == 4 { Some(RAMSize::Kb128) }
        else if b == 5 { Some(RAMSize::Kb64) }
        else { None }
    }

    /// Number of 8 KiB banks.
    pub open spec fn spec_num_banks(self) -> u8 {
        match self {
            RAMSize::NoRAM => 0,
            RAMSize::Kb8 => 1,
            RAMSize::Kb32 => 4,
            RAMSize::Kb128 => 16,
            RAMSize::Kb64 => 8,
        }
    }

    /// Bytes of RAM.
    pub open spec fn spec_size_bytes(self) -> u32 {
        (self.spec_num_banks() * RAM_BANK_SIZE) as u32
    }

    /// Mask of bank numbers.
    pub open spec fn spec_mask(self) -> u8 {
        match self {
            RAMSize::NoRAM | RAMSize::Kb8 => 0,
            RAMSize::Kb32 => 3,
            RAMSize::Kb128 => 0xF,
            RAMSize::Kb64 => 7,
        }
    }

    fn new(rom: &Vec<u8>) -> (r: Result<Self, Error>)
        requires
            rom.len() > 0x149,
        ensures
            r == (match Self::spec_from_byte(rom@[0x149]) {
                Some(s) => Ok(s),
                None => Err(Error::InvalidRamSize),
            }),
    {
        let b = rom[0x149];
        if b == 0 { Ok(RAMSize::NoRAM) }
        else if b == 2 { Ok(RAMSize::Kb8) }
        else if b == 3 { Ok(RAMSize::Kb32) }
        else if b == 4 { Ok(RAMSize::Kb128) }
        else if b == 5 { Ok(RAMSize::Kb64) }
        else { Err(Error::InvalidRamSize) }
    }

    /// Whether the cartridge has RAM.
    fn is_any(self) -> (r: bool)
        ensures
            r == (self != RAMSize::NoRAM),
    {
        !matches!(self, RAMSize::NoRAM)
    }

    /// Bytes of RAM: at most 0x20000.
    fn size_bytes(self) -> (r: u32)
        ensures
            r == self.spec_size_bytes(),
            r <= 0x20000,
    {
        self.num_banks() as u32 * RAM_BANK_SIZE
    }

    fn num_banks(self) -> (r: u8)
        ensures
            r == self.spec_num_banks(),
    {
        match self {
            RAMSize::NoRAM => 0,
            RAMSize::Kb8 => 1,
            RAMSize::Kb32 => 4,
            RAMSize::Kb128 => 0x10,
            RAMSize::Kb64 => 8,
        }
    }

    fn mask(self) -> (r: u8)
        ensures
            r == self.spec_mask(),
    {
        match self {
            RAMSize::NoRAM | RAMSize::Kb8 => 0,
            RAMSize::Kb32 => 3,
            RAMSize::Kb128 => 0xF,
            RAMSize::Kb64 => 7,
        }
    }
}

/// T-cycles per second.
pub const TC_SEC: i32 = 0x40_0000;

/// The real time clock of MBC3 cartridges: seconds, minutes, hours, and a
/// nine-bit day counter with halt and carry flags.
#[derive(Clone, Copy, Debug)]
pub struct Mbc3RTC {
    pub t_cycles: i32,
    /// Seconds, minutes, hours, day low bits, day high bit and flags.
    pub regs: [u8; 5],
    /// The clock register mapped into the RAM area (0x08 to 0x0C), if any.
    pub mapped: Option<u8>,
    pub halt: bool,
    pub carry: bool,
}

/// The clock registers one second later.
pub open spec fn spec_tick_secs(regs: Seq<u8>, carry: bool) -> (Seq<u8>, bool) {
    let s = ((regs[0] + 1) as u8) & 0x3F;
    if s != 60 {
        (regs.update(0, s), carry)
    } else {
        let m = ((regs[1] + 1) as u8) & 0x3F;
        if m != 60 {
            (regs.update(0, 0).update(1, m), carry)
        } else {
            let h = ((regs[2] + 1) as u8) & 0x1F;
            if h != 24 {
                (regs.update(0, 0).update(1, 0).update(2, h), carry)
            } else {
                let d = regs[3].wrapping_add(1);
                if d != 0 {
                    (regs.update(0, 0).update(1, 0).update(2, 0).update(3, d), carry)
                } else {
                    let hi = ((regs[4] + 1) as u8) & 1;
                    (regs.update(0, 0).update(1, 0).update(2, 0).update(3, 0).update(4, hi), if hi == 0 { true } else { carry })
                }
            }
        }
    }
}

impl Mbc3RTC {
    /// Register ranges and the sub-second counter stay in bounds; a mapped
    /// register is one of the five clock registers.
    pub open spec fn wf(&self) -> bool {
        &&& 0 <= self.t_cycles < TC_SEC
        &&& self.regs[0] <= 0x3F
        &&& self.regs[1] <= 0x3F
        &&& self.regs[2] <= 0x1F
        &&& self.regs[4] <= 0xC1
        &&& (self.mapped matches Some(m) ==> 8 <= m <= 0xC)
    }

    /// What a read of the mapped register gives: `None` when RAM is disabled
    /// or no register is mapped.
    pub open spec fn spec_read(&self, ram_enabled: bool) -> Option<u8> {
        if !ram_enabled {
            None
        } else {
            match self.mapped {
                None => None,
                Some(m) => Some(if m == 8 {
                    self.regs[0]
                } else if m == 9 {
                    self.regs[1]
                } else if m == 0xA {
                    self.regs[2]
                } else if m == 0xB {
                    self.regs[3]
                } else {
                    self.regs[4] | ((if self.halt { 1u8 } else { 0u8 }) << 6u8) | ((if self.carry { 1u8 } else { 0u8 }) << 7u8)
                }),
            }
        }
    }

    /// Stopped clock at zero.
    pub(crate) fn new() -> (r: Self)
        ensures
            r.wf(),
            r.t_cycles == 0 && r.mapped is None && !r.halt && !r.carry,
            forall|i: int| 0 <= i < 5 ==> #[trigger] r.regs[i] == 0,
    {
        Mbc3RTC { t_cycles: 0, regs: [0u8; 5], mapped: None, halt: false, carry: false }
    }

    /// Maps clock register `val` (0x08 to 0x0C) into the RAM area.
    fn map_reg(&mut self, val: u8)
        requires
            old(self).wf(),
            8 <= val <= 0xC,
        ensures
            final(self).wf(),
            *final(self) == (Mbc3RTC { mapped: Some(val), ..*old(self) }),
    {
        self.mapped = Some(val);
    }

    /// Maps RAM back into the RAM area.
    fn unmap_reg(&mut self)
        requires
            old(self).wf(),
        ensures
            final(self).wf(),
            *final(self) == (Mbc3RTC { mapped: None, ..*old(self) }),
    {
        self.mapped = None;
    }

    /// Advances the clock by `cycles` t-cycles (none when `cycles` is not
    /// positive).
    fn run_cycles(&mut self, cycles: i32)
        requires
            old(self).wf(),
        ensures
            final(self).wf(),
            final(self)@ == old(self)@.run(if cycles > 0 { cycles as nat } else { 0 }),
    {
        let mut i: i32 = 0;
        while i < cycles
            invariant
                self.wf(),
                0 <= i,
                i <= (if cycles > 0 { cycles } else { 0 }),
                self@ == old(self)@.run(i as nat),
            decreases cycles - i,
        {
            self.update_t_cycle();
            i += 1;
        }
        if cycles > 0 {
            assert(i == cycles);
        } else {
            assert(i == 0);
        }
    }

    /// One t-cycle: every `TC_SEC` cycles the clock moves one second.
    fn update_t_cycle(&mut self)
        requires
            old(self).wf(),
        ensures
            final(self).wf(),
            final(self)@ == old(self)@.tick(),
    {
        if self.halt {
            return;
        }
        self.t_cycles += 1;
        if self.t_cycles == TC_SEC {
            self.t_cycles = 0;
            self.update_secs();
        }
    }

    /// The clock moves one second.
    fn update_secs(&mut self)
        requires
            old(self).wf(),
        ensures
            final(self).wf(),
            (final(self).regs@, final(self).carry) == spec_tick_secs(old(self).regs@, old(self).carry),
            final(self).t_cycles == old(self).t_cycles,
            final(self).mapped == old(self).mapped,
            final(self).halt == old(self).halt,
    {
        let r0 = self.regs[0];
        let ts: u8 = r0 + 1;
        let s = ts & 0x3F;
        proof { crate::bits::lemma_and_u8(ts, 0x3F); }
        self.regs[0] = s;
        if self.regs[0] == 60 {
            self.regs[0] = 0;
            let r1 = self.regs[1];
            let tm: u8 = r1 + 1;
            let m = tm & 0x3F;
            proof { crate::bits::lemma_and_u8(tm, 0x3F); }
            self.regs[1] = m;
            if self.regs[1] == 60 {
                self.regs[1] = 0;
                let r2 = self.regs[2];
                let th: u8 = r2 + 1;
                let h = th & 0x1F;
                proof { crate::bits::lemma_and_u8(th, 0x1F); }
                self.regs[2] = h;
                if self.regs[2] == 24 {
                    self.regs[2] = 0;
                    self.regs[3] = self.regs[3].wrapping_add(1);
                    if self.regs[3] == 0 {
                        let r4 = self.regs[4];
                        let td: u8 = r4 + 1;
                        let d = td & 1;
                        proof { crate::bits::lemma_and_u8(td, 1); }
                        self.regs[4] = d;
                        if self.regs[4] == 0 {
                            self.carry = true;
                        }
                    }
                }
            }
        }
        assert(self.regs@ =~= spec_tick_secs(old(self).regs@, old(self).carry).0);
    }

    /// Reads the mapped clock register.
    fn read(&self, ram_enabled: bool) -> (r: Option<u8>)
        requires
            self.wf(),
        ensures
            r == self.spec_read(ram_enabled),
    {
        if !ram_enabled {
            return None;
        }
        match self.mapped {
            None => None,
            Some(m) => Some(if m == 8 {
                self.regs[0]
            } else if m == 9 {
                self.regs[1]
            } else if m == 0xA {
                self.regs[2]
            } else if m == 0xB {
                self.regs[3]
            } else {
                self.regs[4] | ((if self.halt { 1u8 } else { 0u8 }) << 6u8) | ((if self.carry { 1u8 } else { 0u8 }) << 7u8)
            }),
        }
    }

    /// Writes the mapped clock register; returns `None` (and writes nothing)
    /// when RAM is disabled or no register is mapped.
    fn write(&mut self, ram_enabled: bool, val: u8) -> (r: Option<()>)
        requires
            old(self).wf(),
        ensures
            final(self).wf(),
            r is Some <==> (ram_enabled && old(self).mapped is Some),
            r is None ==> *final(self) == *old(self),
            r is Some ==> final(self)@ == old(self)@.written(val),
    {
        if !ram_enabled {
            return None;
        }
        match self.mapped {
            None => None,
            Some(m) => {
                if m == 8 {
                    proof { crate::bits::lemma_and_u8(val, 0x3F); }
                    self.regs[0] = val & 0x3F;
                } else if m == 9 {
                    proof { crate::bits::lemma_and_u8(val, 0x3F); }
                    self.regs[1] = val & 0x3F;
                } else if m == 0xA {
                    proof { crate::bits::lemma_and_u8(val, 0x1F); }
                    self.regs[2] = val & 0x1F;
                } else if m == 0xB {
                    self.regs[3] = val;
                } else {
                    let v = val & 0xC1;
                    assert(v <= 0xC1 && (v & 0x80 != 0) == (val & 0x80 != 0) && (v & 0x40 != 0) == (val & 0x40 != 0)) by (bit_vector)
                        requires v == val & 0xC1;
                    self.regs[4] = v;
                    self.carry = v & 0x80 != 0;
                    self.halt = v & 0x40 != 0;
                }
                Some(())
            },
        }
    }
}


/// The state of a real time clock, as a model: the sub-second counter, the
/// five registers, the mapped register and the two flags.
pub struct RtcModel {
    pub t_cycles: int,
    pub regs: Seq<u8>,
    pub mapped: Option<u8>,
    pub halt: bool,
    pub carry: bool,
}

impl RtcModel {
    /// A stopped clock at zero with nothing mapped.
    pub open spec fn fresh() -> RtcModel {
        RtcModel { t_cycles: 0, regs: seq![0u8, 0u8, 0u8, 0u8, 0u8], mapped: None, halt: false, carry: false }
    }

    /// The clock one t-cycle later: a halted clock stands still; every
    /// `TC_SEC` cycles the registers move one second.
    pub open spec fn tick(self) -> RtcModel {
        if self.halt {
            self
        } else if self.t_cycles + 1 < TC_SEC {
            RtcModel { t_cycles: self.t_cycles + 1, ..self }
        } else {
            let (regs, carry) = spec_tick_secs(self.regs, self.carry);
            RtcModel { t_cycles: 0, regs, carry, ..self }
        }
    }

    /// The clock after `val` is written to the mapped register.
    pub open spec fn written(self, val: u8) -> RtcModel {
        let m = self.mapped->0;
        if m == 8 {
            RtcModel { regs: self.regs.update(0, val & 0x3F), ..self }
        } else if m == 9 {
            RtcModel { regs: self.regs.update(1, val & 0x3F), ..self }
        } else if m == 0xA {
            RtcModel { regs: self.regs.update(2, val & 0x1F), ..self }
        } else if m == 0xB {
            RtcModel { regs: self.regs.update(3, val), ..self }
        } else {
            RtcModel {
                regs: self.regs.update(4, val & 0xC1),
                carry: val & 0x80 != 0,
                halt: val & 0x40 != 0,
                ..self
            }
        }
    }

    /// The clock `n` t-cycles later.
    pub open spec fn run(self, n: nat) -> RtcModel
        decreases n,
    {
        if n == 0 {
            self
        } else {
            self.run((n - 1) as nat).tick()
        }
    }
}

impl View for Mbc3RTC {
    type V = RtcModel;

    open spec fn view(&self) -> RtcModel {
        RtcModel { t_cycles: self.t_cycles as int, regs: self.regs@, mapped: self.mapped, halt: self.halt, carry: self.carry }
    }
}

/// The memory bank controller of a cartridge and its own state.
#[derive(Clone, Copy, Debug)]
pub enum Mbc {
    Mbc0,
    /// `bank_mode`: the alternative wiring that addresses up to 2 MiB of ROM.
    Mbc1 { bank_mode: bool },
    Mbc2,
    /// `rtc`: the real time clock, on cartridges that have one.
    Mbc3 { rtc: Option<Mbc3RTC> },
    Mbc5,
}

/// Whether header byte 0x147 names a supported controller.
pub open spec fn mbc_supported(b: u8) -> bool {
    b == 0 || b == 1 || b == 2 || b == 3 || b == 5 || b == 6 || b == 0x0F || b == 0x10
        || b == 0x11 || b == 0x12 || b == 0x13 || b == 0x19 || b == 0x1A || b == 0x1B
}

/// The controller and battery that header byte 0x147 names, for a ROM of the
/// given size.
pub open spec fn mbc_of_header(mbc: Mbc, battery: bool, b: u8, rom_size: ROMSize) -> bool {
    let bank_mode = rom_size.spec_code() >= 5;
    if b == 0 {
        mbc == Mbc::Mbc0 && !battery
    } else if b == 1 || b == 2 || b == 3 {
        mbc == (Mbc::Mbc1 { bank_mode }) && battery == (b == 3)
    } else if b == 5 || b == 6 {
        mbc == Mbc::Mbc2 && battery == (b == 6)
    } else if b == 0x0F || b == 0x10 {
        (mbc matches Mbc::Mbc3 { rtc: Some(r) } && r.wf() && r@ == RtcModel::fresh()) && battery
    } else if b == 0x11 || b == 0x12 || b == 0x13 {
        mbc == (Mbc::Mbc3 { rtc: None }) && battery == (b == 0x13)
    } else {
        mbc == Mbc::Mbc5 && battery == (b == 0x1B)
    }
}

impl Mbc {
    /// The controller and battery named by header byte 0x147.
    fn mbc_and_battery(mbc_byte: u8, rom_size: ROMSize) -> (r: Result<(Mbc, bool), Error>)
        ensures
            match r {
                Ok((m, bat)) => mbc_supported(mbc_byte) && mbc_of_header(m, bat, mbc_byte, rom_size),
                Err(e) => !mbc_supported(mbc_byte) && e == Error::UnsupportedMBC,
            },
    {
        let bank_mode = rom_size.code() >= 5;
        if mbc_byte == 0x00 {
            Ok((Mbc::Mbc0, false))
        } else if mbc_byte == 0x01 || mbc_byte == 0x02 {
            Ok((Mbc::Mbc1 { bank_mode }, false))
        } else if mbc_byte == 0x03 {
            Ok((Mbc::Mbc1 { bank_mode }, true))
        } else if mbc_byte == 0x05 {
            Ok((Mbc::Mbc2, false))
        } else if mbc_byte == 0x06 {
            Ok((Mbc::Mbc2, true))
        } else if mbc_byte == 0x0F || mbc_byte == 0x10 {
            let r = Mbc3RTC::new();
            assert(r@.regs =~= RtcModel::fresh().regs);
            Ok((Mbc::Mbc3 { rtc: Some(r) }, true))
        } else if mbc_byte == 0x11 || mbc_byte == 0x12 {
            Ok((Mbc::Mbc3 { rtc: None }, false))
        } else if mbc_byte == 0x13 {
            Ok((Mbc::Mbc3 { rtc: None }, true))
        } else if mbc_byte == 0x19 || mbc_byte == 0x1A {
            Ok((Mbc::Mbc5, false))
        } else if mbc_byte == 0x1B {
            Ok((Mbc::Mbc5, true))
        } else {
            Err(Error::UnsupportedMBC)
        }
    }
}


/// ROM bank offsets of an MBC1 cartridge: the first area shows bank 0, or in
/// the alternative wiring the bank of the upper bits; the second area shows
/// the bank of both registers.
pub open spec fn mbc1_rom_offsets(lo: u8, hi_reg: u8, bank_mode: bool, mask: u16) -> (u32, u32) {
    let hi: u8 = hi_reg << 5u8;
    let lo_bank: u16 = if bank_mode { (hi as u16) & mask } else { 0 };
    let hi_bank: u16 = ((hi | lo) as u16) & mask;
    ((0x4000 * lo_bank) as u32, (0x4000 * hi_bank) as u32)
}

/// In MBC1's first banking mode a write to the bank registers maps bank 0
/// at 0x0000 and, at 0x4000, the bank whose upper bits are the two-bit
/// register (bits 5 and 6) and whose lower bits are the five-bit register,
/// masked to the ROM size.
pub proof fn law_mbc1_switchable_bank(c: Cartridge, addr: u16, val: u8)
    requires
        c.mbc == (Mbc::Mbc1 { bank_mode: false }),
        0x2000 <= addr <= 0x5FFF,
    ensures
        ({
            let n = c.spec_write_rom(addr, val);
            let mask = c.rom_size.spec_mask();
            &&& n.rom_offsets.0 == 0
            &&& n.rom_offsets.1 == 0x4000 * ((((n.rom_bank_hi << 5u8) | n.rom_bank_lo) as u16) & mask)
            &&& addr <= 0x3FFF ==> n.rom_bank_lo == (if val == 0 { 1 } else { val }) && n.rom_bank_hi == c.rom_bank_hi
            &&& addr >= 0x4000 ==> n.rom_bank_hi == val & 3 && n.rom_bank_lo == c.rom_bank_lo
        }),
{
}

/// RAM bank offset of an MBC1 cartridge.
pub open spec fn mbc1_ram_offset(hi_reg: u8, bank_mode: bool) -> u32 {
    if bank_mode { (0x2000 * hi_reg) as u32 } else { 0 }
}

/// ROM bank offsets of an MBC5 cartridge: a nine-bit bank number.
pub open spec fn mbc5_rom_offsets(lo: u8, hi_reg: u8, mask: u16) -> (u32, u32) {
    let bank: u16 = (((hi_reg as u16) << 8u16) | (lo as u16)) & mask;
    (0, (0x4000 * bank) as u32)
}

/// Whether a value written to the enable area enables cartridge RAM.
pub open spec fn enables_ram(val: u8) -> bool {
    val & 0xF == 0xA
}

/// What the header says is wrong with a ROM image, if anything: the ROM size
/// is checked first, then the RAM size, then the controller.
pub open spec fn header_error(rom: Seq<u8>) -> Option<Error> {
    if ROMSize::spec_from_byte(rom[0x148]) is None {
        Some(Error::InvalidRomSize)
    } else if RAMSize::spec_from_byte(rom[0x149]) is None {
        Some(Error::InvalidRamSize)
    } else if !mbc_supported(rom[0x147]) {
        Some(Error::UnsupportedMBC)
    } else {
        None
    }
}

/// `s` cut to at most `n` bytes.
pub open spec fn cut(s: Seq<u8>, n: int) -> Seq<u8> {
    if s.len() > n { s.subrange(0, n) } else { s }
}

/// A cartridge: its ROM, its RAM, the controller and the bank registers.
pub struct Cartridge {
    pub mbc: Mbc,
    pub rom: Vec<u8>,
    pub ram: Vec<u8>,
    pub rom_bank_lo: u8,
    pub rom_bank_hi: u8,
    pub rom_offsets: (u32, u32),
    pub ram_enabled: bool,
    pub ram_bank: u8,
    pub ram_offset: u32,
    pub has_battery: bool,
    pub ram_size: RAMSize,
    pub rom_size: ROMSize,
}

impl Cartridge {
    /// The clock of an MBC3 cartridge is in range; an MBC1 upper bank
    /// register holds two bits.
    pub open spec fn wf(&self) -> bool {
        match self.mbc {
            Mbc::Mbc3 { rtc: Some(r) } => r.wf(),
            Mbc::Mbc1 { .. } => self.rom_bank_hi <= 3,
            _ => true,
        }
    }

    /// Offset in RAM of an address of the RAM area.
    pub open spec fn spec_ram_addr(&self, addr: u16) -> u32 {
        self.ram_offset | ((addr & 0x1FFF) as u32)
    }

    /// A byte of RAM as the generic controller logic reads it: 0xFF when the
    /// cartridge has no RAM, RAM is disabled, or the offset is past the end.
    pub open spec fn spec_ram_byte(&self, addr: u16) -> u8 {
        let a = self.spec_ram_addr(addr);
        if self.ram_size != RAMSize::NoRAM && self.ram_enabled && a < self.ram@.len() {
            self.ram@[a as int]
        } else {
            0xFF
        }
    }

    /// A read of the ROM area (0x0000 to 0x7FFF); 0xFF past the end of the
    /// image.
    pub open spec fn spec_read_rom(&self, addr: u16) -> u8 {
        let a = if addr <= 0x3FFF {
            self.rom_offsets.0 | ((addr & 0x3FFF) as u32)
        } else {
            self.rom_offsets.1 | ((addr & 0x3FFF) as u32)
        };
        if a < self.rom@.len() { self.rom@[a as int] } else { 0xFF }
    }

    /// A read of the RAM area (0xA000 to 0xBFFF).
    pub open spec fn spec_read_ram(&self, addr: u16) -> u8 {
        match self.mbc {
            Mbc::Mbc0 => 0xFF,
            Mbc::Mbc1 { .. } | Mbc::Mbc5 => self.spec_ram_byte(addr),
            Mbc::Mbc2 => (self.spec_ram_byte(addr) & 0xF) | 0xF0,
            Mbc::Mbc3 { rtc } => match rtc {
                Some(r) => match r.spec_read(self.ram_enabled) {
                    Some(v) => v,
                    None => self.spec_ram_byte(addr),
                },
                None => self.spec_ram_byte(addr),
            },
        }
    }

    /// RAM after the generic controller logic writes `val`: nothing happens
    /// when RAM is disabled or the offset is past the end.
    pub open spec fn spec_ram_written(&self, addr: u16, val: u8) -> Seq<u8> {
        let a = self.spec_ram_addr(addr);
        if self.ram_enabled && a < self.ram@.len() {
            self.ram@.update(a as int, val)
        } else {
            self.ram@
        }
    }

    /// Offset in RAM of an address of the RAM area.
    fn ram_addr(&self, addr: u16) -> (r: u32)
        ensures
            r == self.spec_ram_addr(addr),
    {
        self.ram_offset | (addr & 0x1FFF) as u32
    }

    fn mbc_read_ram(&self, addr: u16) -> (r: u8)
        ensures
            r == self.spec_ram_byte(addr),
    {
        let a = self.ram_addr(addr);
        if self.ram_size.is_any() && self.ram_enabled && (a as usize) < self.ram.len() {
            self.ram[a as usize]
        } else {
            0xFF
        }
    }

    fn mbc_write_ram(&mut self, addr: u16, val: u8)
        ensures
            final(self).ram@ == old(self).spec_ram_written(addr, val),
            final(self).mbc == old(self).mbc,
            final(self).same_banks(old(self)),
    {
        let a = self.ram_addr(addr);
        if self.ram_enabled && (a as usize) < self.ram.len() {
            self.ram.set(a as usize, val);
        }
    }

    /// Reads the ROM area (0x0000 to 0x7FFF) through the bank registers.
    pub fn read_rom(&self, addr: u16) -> (r: u8)
        requires
            addr <= 0x7FFF,
        ensures
            r == self.spec_read_rom(addr),
    {
        let (lo, hi) = self.rom_offsets;
        let bank_addr = if addr <= 0x3FFF {
            lo | (addr & 0x3FFF) as u32
        } else {
            hi | (addr & 0x3FFF) as u32
        };
        if (bank_addr as usize) < self.rom.len() {
            self.rom[bank_addr as usize]
        } else {
            0xFF
        }
    }

    /// Reads the RAM area (0xA000 to 0xBFFF): cartridge RAM, or a clock
    /// register of an MBC3 cartridge.
    pub fn read_ram(&self, addr: u16) -> (r: u8)
        requires
            self.wf(),
        ensures
            r == self.spec_read_ram(addr),
    {
        match self.mbc {
            Mbc::Mbc0 => 0xFF,
            Mbc::Mbc1 { .. } | Mbc::Mbc5 => self.mbc_read_ram(addr),
            Mbc::Mbc2 => (self.mbc_read_ram(addr) & 0xF) | 0xF0,
            Mbc::Mbc3 { rtc } => {
                let v = match rtc {
                    Some(r) => r.read(self.ram_enabled),
                    None => None,
                };
                match v {
                    Some(v) => v,
                    None => self.mbc_read_ram(addr),
                }
            },
        }
    }

    /// The cartridge after a write of `val` to the ROM area, which sets the
    /// controller's registers.
    pub open spec fn spec_write_rom(self, addr: u16, val: u8) -> Cartridge {
        match self.mbc {
            Mbc::Mbc0 => self,
            Mbc::Mbc1 { bank_mode } => self.spec_mbc1_write(bank_mode, addr, val),
            Mbc::Mbc2 => self.spec_mbc2_write(addr, val),
            Mbc::Mbc3 { rtc } => self.spec_mbc3_write(rtc, addr, val),
            Mbc::Mbc5 => self.spec_mbc5_write(addr, val),
        }
    }

    pub open spec fn spec_mbc1_write(self, bank_mode: bool, addr: u16, val: u8) -> Cartridge {
        let mask = self.rom_size.spec_mask();
        if addr <= 0x1FFF {
            Cartridge { ram_enabled: enables_ram(val), ..self }
        } else if addr <= 0x3FFF {
            let lo: u8 = if val == 0 { 1 } else { val };
            Cartridge {
                rom_bank_lo: lo,
                rom_offsets: mbc1_rom_offsets(lo, self.rom_bank_hi, bank_mode, mask),
                ..self
            }
        } else if addr <= 0x5FFF {
            let hi: u8 = val & 3;
            Cartridge {
                rom_bank_hi: hi,
                rom_offsets: mbc1_rom_offsets(self.rom_bank_lo, hi, bank_mode, mask),
                ram_offset: mbc1_ram_offset(hi, bank_mode),
                ..self
            }
        } else if addr <= 0x7FFF {
            let bm = val & 1 != 0;
            Cartridge {
                mbc: Mbc::Mbc1 { bank_mode: bm },
                rom_offsets: mbc1_rom_offsets(self.rom_bank_lo, self.rom_bank_hi, bm, mask),
                ram_offset: mbc1_ram_offset(self.rom_bank_hi, bm),
                ..self
            }
        } else {
            self
        }
    }

    pub open spec fn spec_mbc2_write(self, addr: u16, val: u8) -> Cartridge {
        if addr <= 0x3FFF {
            if (addr >> 8u16) & 1 == 0 {
                Cartridge { ram_enabled: enables_ram(val), ..self }
            } else {
                let v: u8 = val & 0xF;
                let lo: u8 = if v == 0 { 1 } else { v };
                Cartridge { rom_bank_lo: lo, rom_offsets: (0, (0x4000 * lo) as u32), ..self }
            }
        } else {
            self
        }
    }

    pub open spec fn spec_mbc3_write(self, rtc: Option<Mbc3RTC>, addr: u16, val: u8) -> Cartridge {
        if addr <= 0x1FFF {
            Cartridge { ram_enabled: enables_ram(val), ..self }
        } else if addr <= 0x3FFF {
            let l: u8 = val & ((self.rom_size.spec_mask() & 0x7F) as u8);
            let lo: u8 = if l == 0 { 1 } else { l };
            Cartridge { rom_bank_lo: lo, rom_offsets: (0, (0x4000 * lo) as u32), ..self }
        } else if addr <= 0x5FFF {
            if 8 <= val <= 0xC {
                let r2 = match rtc {
                    Some(r) => Some(Mbc3RTC { mapped: Some(val), ..r }),
                    None => None,
                };
                Cartridge { mbc: Mbc::Mbc3 { rtc: r2 }, ..self }
            } else {
                let b: u8 = val & 7 & self.ram_size.spec_mask();
                let r2 = match rtc {
                    Some(r) => Some(Mbc3RTC { mapped: None, ..r }),
                    None => None,
                };
                Cartridge { ram_bank: b, ram_offset: (0x2000 * b) as u32, mbc: Mbc::Mbc3 { rtc: r2 }, ..self }
            }
        } else {
            self
        }
    }

    pub open spec fn spec_mbc5_write(self, addr: u16, val: u8) -> Cartridge {
        let mask = self.rom_size.spec_mask();
        if addr <= 0x1FFF {
            Cartridge { ram_enabled: enables_ram(val), ..self }
        } else if addr <= 0x2FFF {
            Cartridge { rom_bank_lo: val, rom_offsets: mbc5_rom_offsets(val, self.rom_bank_hi, mask), ..self }
        } else if addr <= 0x3FFF {
            Cartridge { rom_bank_hi: val, rom_offsets: mbc5_rom_offsets(self.rom_bank_lo, val, mask), ..self }
        } else if addr <= 0x5FFF {
            let b: u8 = val & self.ram_size.spec_mask();
            Cartridge { ram_bank: b, ram_offset: (0x2000 * b) as u32, ..self }
        } else {
            self
        }
    }

    fn mbc1_write(&mut self, bank_mode: bool, addr: u16, val: u8)
        requires
            old(self).wf(),
            old(self).mbc == (Mbc::Mbc1 { bank_mode }),
        ensures
            final(self).wf(),
            *final(self) == old(self).spec_mbc1_write(bank_mode, addr, val),
    {
        let mask = self.rom_size.mask();
        if addr <= 0x1FFF {
            self.ram_enabled = (val & 0xF) == 0xA;
        } else if addr <= 0x3FFF {
            self.rom_bank_lo = if val == 0 { 1 } else { val };
            self.rom_offsets = mbc1_offsets(self.rom_bank_lo, self.rom_bank_hi, bank_mode, mask);
        } else if addr <= 0x5FFF {
            let hi = val & 3;
            proof { crate::bits::lemma_and_u8(val, 3); }
            self.rom_bank_hi = hi;
            self.rom_offsets = mbc1_offsets(self.rom_bank_lo, hi, bank_mode, mask);
            self.ram_offset = if bank_mode { 0x2000u32 * hi as u32 } else { 0 };
        } else if addr <= 0x7FFF {
            let bm = val & 1 != 0;
            self.mbc = Mbc::Mbc1 { bank_mode: bm };
            self.rom_offsets = mbc1_offsets(self.rom_bank_lo, self.rom_bank_hi, bm, mask);
            self.ram_offset = if bm { 0x2000u32 * self.rom_bank_hi as u32 } else { 0 };
        }
    }

    fn mbc2_write(&mut self, addr: u16, val: u8)
        requires
            old(self).wf(),
            old(self).mbc == Mbc::Mbc2,
        ensures
            final(self).wf(),
            *final(self) == old(self).spec_mbc2_write(addr, val),
    {
        if addr <= 0x3FFF {
            if (addr >> 8) & 1 == 0 {
                self.ram_enabled = (val & 0xF) == 0xA;
            } else {
                let v = val & 0xF;
                self.rom_bank_lo = if v == 0 { 1 } else { v };
                self.rom_offsets = (0, 0x4000u32 * self.rom_bank_lo as u32);
            }
        }
    }

    fn mbc3_write(&mut self, rtc: Option<Mbc3RTC>, addr: u16, val: u8)
        requires
            old(self).wf(),
            old(self).mbc == (Mbc::Mbc3 { rtc }),
        ensures
            final(self).wf(),
            *final(self) == old(self).spec_mbc3_write(rtc, addr, val),
    {
        if addr <= 0x1FFF {
            self.ram_enabled = (val & 0x0F) == 0x0A;
        } else if addr <= 0x3FFF {
            let l = val & (self.rom_size.mask() & 0x7F) as u8;
            self.rom_bank_lo = if l == 0 { 1 } else { l };
            self.rom_offsets = (0, 0x4000u32 * self.rom_bank_lo as u32);
        } else if addr <= 0x5FFF {
            if 8 <= val && val <= 0xC {
                let r2 = match rtc {
                    Some(r) => {
                        let mut r = r;
                        r.map_reg(val);
                        Some(r)
                    },
                    None => None,
                };
                self.mbc = Mbc::Mbc3 { rtc: r2 };
            } else {
                let b = val & 0x7 & self.ram_size.mask();
                assert(b <= 0xFF);
                self.ram_bank = b;
                self.ram_offset = 0x2000u32 * b as u32;
                let r2 = match rtc {
                    Some(r) => {
                        let mut r = r;
                        r.unmap_reg();
                        Some(r)
                    },
                    None => None,
                };
                self.mbc = Mbc::Mbc3 { rtc: r2 };
            }
        }
    }

    fn mbc5_write(&mut self, addr: u16, val: u8)
        requires
            old(self).wf(),
            old(self).mbc == Mbc::Mbc5,
        ensures
            final(self).wf(),
            *final(self) == old(self).spec_mbc5_write(addr, val),
    {
        let mask = self.rom_size.mask();
        if addr <= 0x1FFF {
            self.ram_enabled = val & 0xF == 0xA;
        } else if addr <= 0x2FFF {
            self.rom_bank_lo = val;
            self.rom_offsets = mbc5_offsets(val, self.rom_bank_hi, mask);
        } else if addr <= 0x3FFF {
            self.rom_bank_hi = val;
            self.rom_offsets = mbc5_offsets(self.rom_bank_lo, val, mask);
        } else if addr <= 0x5FFF {
            let b = val & self.ram_size.mask();
            self.ram_bank = b;
            self.ram_offset = 0x2000u32 * b as u32;
        }
    }

    /// Writes the ROM area, which sets the controller's registers.
    pub fn write_rom(&mut self, addr: u16, val: u8)
        requires
            old(self).wf(),
        ensures
            final(self).wf(),
            *final(self) == old(self).spec_write_rom(addr, val),
    {
        match self.mbc {
            Mbc::Mbc0 => {},
            Mbc::Mbc1 { bank_mode } => self.mbc1_write(bank_mode, addr, val),
            Mbc::Mbc2 => self.mbc2_write(addr, val),
            Mbc::Mbc3 { rtc } => self.mbc3_write(rtc, addr, val),
            Mbc::Mbc5 => self.mbc5_write(addr, val),
        }
    }

    /// Both cartridges have the same ROM and the same bank registers, RAM
    /// enable, battery and sizes (the controller and RAM may differ).
    pub open spec fn same_banks(&self, other: &Cartridge) -> bool {
        &&& self.rom == other.rom
        &&& self.rom_bank_lo == other.rom_bank_lo
        &&& self.rom_bank_hi == other.rom_bank_hi
        &&& self.rom_offsets == other.rom_offsets
        &&& self.ram_enabled == other.ram_enabled
        &&& self.ram_bank == other.ram_bank
        &&& self.ram_offset == other.ram_offset
        &&& self.has_battery == other.has_battery
        &&& self.ram_size == other.ram_size
        &&& self.rom_size == other.rom_size
    }

    /// Whether a write to the RAM area goes to the clock of an MBC3
    /// cartridge: RAM is enabled and a clock register is mapped.
    pub open spec fn rtc_takes_write(&self) -> bool {
        &&& self.ram_enabled
        &&& self.mbc matches Mbc::Mbc3 { rtc: Some(r) }
        &&& r.mapped is Some
    }

    /// Writes the RAM area (0xA000 to 0xBFFF): cartridge RAM, or the mapped
    /// clock register of an MBC3 cartridge.
    pub fn write_ram(&mut self, addr: u16, val: u8)
        requires
            old(self).wf(),
        ensures
            final(self).wf(),
            final(self).same_banks(old(self)),
            old(self).rtc_takes_write() ==> final(self).ram@ == old(self).ram@
                && (final(self).mbc matches Mbc::Mbc3 { rtc: Some(r2) }
                    && (old(self).mbc matches Mbc::Mbc3 { rtc: Some(r1) } && r2@ == r1@.written(val))),
            !old(self).rtc_takes_write() ==> final(self).mbc == old(self).mbc
                && final(self).ram@ == (if old(self).mbc is Mbc0 { old(self).ram@ } else { old(self).spec_ram_written(addr, val) }),
    {
        match self.mbc {
            Mbc::Mbc0 => {},
            Mbc::Mbc1 { .. } | Mbc::Mbc2 | Mbc::Mbc5 => self.mbc_write_ram(addr, val),
            Mbc::Mbc3 { rtc } => {
                match rtc {
                    Some(r) => {
                        let mut r = r;
                        let w = r.write(self.ram_enabled, val);
                        match w {
                            Some(_) => {
                                self.mbc = Mbc::Mbc3 { rtc: Some(r) };
                            },
                            None => self.mbc_write_ram(addr, val),
                        }
                    },
                    None => self.mbc_write_ram(addr, val),
                }
            },
        }
    }

    /// What running the cartridge for `cycles` t-cycles does (`self` before,
    /// `next` after): the clock of an MBC3 cartridge advances, nothing else
    /// changes.
    #[verifier::opaque]
    pub open spec fn spec_ran(self, next: Cartridge, cycles: i32) -> bool {
        &&& next.rom == self.rom
        &&& next.ram == self.ram
        &&& next.rom_bank_lo == self.rom_bank_lo
        &&& next.rom_bank_hi == self.rom_bank_hi
        &&& next.rom_offsets == self.rom_offsets
        &&& next.ram_enabled == self.ram_enabled
        &&& next.ram_bank == self.ram_bank
        &&& next.ram_offset == self.ram_offset
        &&& next.has_battery == self.has_battery
        &&& next.ram_size == self.ram_size
        &&& next.rom_size == self.rom_size
        &&& match self.mbc {
            Mbc::Mbc3 { rtc: Some(r1) } => next.mbc matches Mbc::Mbc3 { rtc: Some(r2) }
                && r2@ == r1@.run(if cycles > 0 { cycles as nat } else { 0 }),
            _ => next.mbc == self.mbc,
        }
    }

    /// Advances the clock of an MBC3 cartridge by `cycles` t-cycles; other
    /// cartridges have nothing to run.
    pub fn run(&mut self, cycles: i32)
        requires
            old(self).wf(),
        ensures
            final(self).wf(),
            final(self).rom == old(self).rom,
            final(self).ram == old(self).ram,
            final(self).rom_bank_lo == old(self).rom_bank_lo,
            final(self).rom_bank_hi == old(self).rom_bank_hi,
            final(self).rom_offsets == old(self).rom_offsets,
            final(self).ram_enabled == old(self).ram_enabled,
            final(self).ram_bank == old(self).ram_bank,
            final(self).ram_offset == old(self).ram_offset,
            final(self).has_battery == old(self).has_battery,
            final(self).ram_size == old(self).ram_size,
            final(self).rom_size == old(self).rom_size,
            match old(self).mbc {
                Mbc::Mbc3 { rtc: Some(r1) } => final(self).mbc matches Mbc::Mbc3 { rtc: Some(r2) }
                    && r2@ == r1@.run(if cycles > 0 { cycles as nat } else { 0 }),
                _ => final(self).mbc == old(self).mbc,
            },
            old(self).spec_ran(*final(self), cycles),
    {
        proof { reveal(Cartridge::spec_ran); }
        if let Mbc::Mbc3 { rtc: Some(r) } = self.mbc {
            let mut r = r;
            r.run_cycles(cycles);
            self.mbc = Mbc::Mbc3 { rtc: Some(r) };
        }
    }

    /// Loads a cartridge from a ROM image and, for battery-backed RAM, a
    /// saved RAM image. The ROM is cut to the size its header declares and
    /// the RAM to the declared RAM size; without a saved image RAM starts
    /// filled with 0xFF.
    pub fn new(rom: Vec<u8>, ram: Option<Vec<u8>>) -> (r: Result<Self, Error>)
        requires
            rom.len() > 0x149,
        ensures
            match r {
                Err(e) => header_error(rom@) == Some(e),
                Ok(c) => {
                    &&& header_error(rom@) is None
                    &&& c.wf()
                    &&& ROMSize::spec_from_byte(rom@[0x148]) == Some(c.rom_size)
                    &&& RAMSize::spec_from_byte(rom@[0x149]) == Some(c.ram_size)
                    &&& mbc_of_header(c.mbc, c.has_battery, rom@[0x147], c.rom_size)
                    &&& c.rom@ == cut(rom@, c.rom_size.spec_size_bytes() as int)
                    &&& c.ram@ == match ram {
                        Some(v) => cut(v@, c.ram_size.spec_size_bytes() as int),
                        None => Seq::new(c.ram_size.spec_size_bytes() as nat, |i: int| 0xFFu8),
                    }
                    &&& c.rom_bank_lo == 1 && c.rom_bank_hi == 0
                    &&& c.rom_offsets == (0u32, 0x4000u32)
                    &&& !c.ram_enabled && c.ram_bank == 0 && c.ram_offset == 0
                },
            },
    {
        let rom_size = match ROMSize::new(&rom) {
            Ok(s) => s,
            Err(e) => return Err(e),
        };
        let ram_size = match RAMSize::new(&rom) {
            Ok(s) => s,
            Err(e) => return Err(e),
        };
        let (mbc, has_battery) = match Mbc::mbc_and_battery(rom[0x147], rom_size) {
            Ok(p) => p,
            Err(e) => return Err(e),
        };
        let mut rom = rom;
        rom.truncate(rom_size.size_bytes() as usize);
        let ram = match ram {
            None => {
                let v: Vec<u8> = vec![0xFFu8; ram_size.size_bytes() as usize];
                assert(v@ =~= Seq::new(ram_size.spec_size_bytes() as nat, |i: int| 0xFFu8));
                v
            },
            Some(r) => {
                let mut r = r;
                r.truncate(ram_size.size_bytes() as usize);
                r
            },
        };
        Ok(Cartridge {
            mbc,
            rom,
            ram,
            rom_bank_lo: 1,
            rom_bank_hi: 0,
            rom_offsets: (0, 0x4000),
            ram_enabled: false,
            ram_bank: 0,
            ram_offset: 0,
            has_battery,
            ram_size,
            rom_size,
        })
    }

    /// The RAM image to save, for cartridges with a battery.
    pub fn save_data(&self) -> (r: Option<&[u8]>)
        ensures
            r is Some <==> self.has_battery,
            r matches Some(d) ==> d@ == self.ram@,
    {
        if self.has_battery {
            Some(self.ram.as_slice())
        } else {
            None
        }
    }

    /// The five clock registers of an MBC3 cartridge with a clock.
    pub fn clock(&self) -> (r: Option<&[u8]>)
        ensures
            match self.mbc {
                Mbc::Mbc3 { rtc: Some(c) } => r matches Some(d) && d@ == c.regs@,
                _ => r is None,
            },
    {
        match &self.mbc {
            Mbc::Mbc3 { rtc: Some(c) } => Some(c.regs.as_slice()),
            _ => None,
        }
    }

    /// Whether the cartridge has battery-backed RAM.
    pub fn has_battery(&self) -> (r: bool)
        ensures
            r == self.has_battery,
    {
        self.has_battery
    }
}

/// A byte written to enabled cartridge RAM reads back (MBC2 RAM keeps the
/// low four bits and reads the high four as ones), when the cartridge has RAM,
/// the offset is inside it and no clock register takes the write.
pub proof fn law_ram_read_after_write(c: Cartridge, c2: Cartridge, addr: u16, val: u8)
    requires
        c.wf(),
        !(c.mbc is Mbc0),
        !c.rtc_takes_write(),
        c.ram_enabled,
        c.ram_size != RAMSize::NoRAM,
        c.spec_ram_addr(addr) < c.ram@.len(),
        c2.same_banks(&c),
        c2.mbc == c.mbc,
        c2.ram@ == c.spec_ram_written(addr, val),
    ensures
        c2.spec_read_ram(addr) == (if c.mbc is Mbc2 { (val & 0xF) | 0xF0 } else { val }),
{
}

fn mbc1_offsets(lo: u8, hi_reg: u8, bank_mode: bool, mask: u16) -> (r: (u32, u32))
    requires
        mask <= 0x1FF,
    ensures
        r == mbc1_rom_offsets(lo, hi_reg, bank_mode, mask),
{
    let hi: u8 = hi_reg << 5;
    let lo_bank: u16 = if bank_mode { hi as u16 & mask } else { 0 };
    let hi_bank: u16 = (hi | lo) as u16 & mask;
    let h16 = hi as u16;
    let b16 = (hi | lo) as u16;
    proof { crate::bits::lemma_and_u16(h16, mask); crate::bits::lemma_and_u16(b16, mask); }
    (0x4000u32 * lo_bank as u32, 0x4000u32 * hi_bank as u32)
}

fn mbc5_offsets(lo: u8, hi_reg: u8, mask: u16) -> (r: (u32, u32))
    requires
        mask <= 0x1FF,
    ensures
        r == mbc5_rom_offsets(lo, hi_reg, mask),
{
    let x: u16 = ((hi_reg as u16) << 8) | lo as u16;
    let bank: u16 = x & mask;
    proof { crate::bits::lemma_and_u16(x, mask); }
    (0, 0x4000u32 * bank as u32)
}

/// The battery flag is fixed when the cartridge is made: a write to the ROM
/// area never changes it (nor do writes to the RAM area and the clock, whose
/// contracts keep it).
pub proof fn law_battery_flag_fixed(c: Cartridge, addr: u16, val: u8)
    ensures
        c.spec_write_rom(addr, val).has_battery == c.has_battery,
{
}

} // verus!
