//! Calibration persistence.  The on-chip EEPROM is modelled as its byte
//! image; the register dance and busy polling that move one byte stay
//! outside the crate.  Words are stored little-endian, and writing then
//! reading an address hands back the value written.  The fixed layout:
//! bytes 0..8 hold the four magnetometer extremes, bytes 8..32 hold the
//! (min, max) pair of each of the six reflectance channels.

use vstd::prelude::*;

verus! {

/// Addressable bytes (the calibration area uses 8-bit addresses).
pub const EEPROM_SIZE: usize = 256;

pub const IMU_X_MIN_ADDR: u8 = 0;

pub const IMU_X_MAX_ADDR: u8 = 2;

pub const IMU_Y_MIN_ADDR: u8 = 4;

pub const IMU_Y_MAX_ADDR: u8 = 6;

pub const IR_0_MIN_ADDR: u8 = 8;

pub const IR_0_MAX_ADDR: u8 = 10;

pub const IR_1_MIN_ADDR: u8 = 12;

pub const IR_1_MAX_ADDR: u8 = 14;

pub const IR_2_MIN_ADDR: u8 = 16;

pub const IR_2_MAX_ADDR: u8 = 18;

pub const IR_3_MIN_ADDR: u8 = 20;

pub const IR_3_MAX_ADDR: u8 = 22;

pub const IR_4_MIN_ADDR: u8 = 24;

pub const IR_4_MAX_ADDR: u8 = 26;

pub const IR_5_MIN_ADDR: u8 = 28;

pub const IR_5_MAX_ADDR: u8 = 30;

pub const END_ADDR: u8 = 32;

/// The little-endian 16-bit word at address `a` of a byte image.
pub open spec fn word_at(mem: Seq<u8>, a: int) -> int {
    mem[a] + 0x100 * mem[a + 1]
}

/// The little-endian 32-bit word at address `a` of a byte image.
pub open spec fn dword_at(mem: Seq<u8>, a: int) -> int {
    mem[a] + 0x100 * mem[a + 1] + 0x1_0000 * mem[a + 2] + 0x100_0000 * mem[a + 3]
}

/// A byte image with the little-endian bytes of `v` written at `a`.
pub open spec fn with_word(mem: Seq<u8>, a: int, v: u16) -> Seq<u8> {
    mem.update(a, (v % 0x100) as u8).update(a + 1, (v / 0x100) as u8)
}

/// A byte image with the four little-endian bytes of `v` written at `a`.
pub open spec fn with_dword(mem: Seq<u8>, a: int, v: u32) -> Seq<u8> {
    mem.update(a, (v % 0x100) as u8).update(a + 1, ((v / 0x100) % 0x100) as u8).update(
        a + 2,
        ((v / 0x1_0000) % 0x100) as u8,
    ).update(a + 3, (v / 0x100_0000) as u8)
}

pub struct Eeprom {
    bytes: Vec<u8>,
}

impl View for Eeprom {
    type V = Seq<u8>;

    closed spec fn view(&self) -> Seq<u8> {
        self.bytes@
    }
}

impl Eeprom {
    pub open spec fn wf(self) -> bool {
        self@.len() == EEPROM_SIZE
    }

    /// A fresh part reads as erased: every byte all-ones.
    pub fn new() -> (e: Eeprom)
        ensures
            e.wf(),
            forall|a: int| 0 <= a < EEPROM_SIZE ==> e@[a] == 0xffu8,
    {
        let mut bytes: Vec<u8> = Vec::new();
        let mut i: usize = 0;
        while i < EEPROM_SIZE
            invariant
                i <= EEPROM_SIZE,
                bytes@.len() == i,
                forall|a: int| 0 <= a < i ==> bytes@[a] == 0xffu8,
            decreases EEPROM_SIZE - i,
        {
            bytes.push(0xff);
            i = i + 1;
        }
        Eeprom { bytes }
    }

    pub fn read_eeprom_u8(&self, addr: u8) -> (v: u8)
        requires
            self.wf(),
        ensures
            v == self@[addr as int],
    {
        self.bytes[addr as usize]
    }

    pub fn write_eeprom_u8(&mut self, addr: u8, value: u8)
        requires
            old(self).wf(),
        ensures
            final(self).wf(),
            final(self)@ == old(self)@.update(addr as int, value),
    {
        self.bytes[addr as usize] = value;
    }

    pub fn read_eeprom_u16(&self, addr: u8) -> (v: u16)
        requires
            self.wf(),
            addr + 1 < EEPROM_SIZE,
        ensures
            v == word_at(self@, addr as int),
    {
        let low = self.read_eeprom_u8(addr);
        let high = self.read_eeprom_u8(addr + 1);
        low as u16 + (high as u16) * 0x100
    }

    pub fn write_eeprom_u16(&mut self, addr: u8, value: u16)
        requires
            old(self).wf(),
            addr + 1 < EEPROM_SIZE,
        ensures
            final(self).wf(),
            final(self)@ == with_word(old(self)@, addr as int, value),
    {
        self.write_eeprom_u8(addr, (value % 0x100) as u8);
        self.write_eeprom_u8(addr + 1, (value / 0x100) as u8);
    }

    pub fn read_eeprom_u32(&self, addr: u8) -> (v: u32)
        requires
            self.wf(),
            addr + 3 < EEPROM_SIZE,
        ensures
            v == dword_at(self@, addr as int),
    {
        let b0 = self.read_eeprom_u8(addr);
        let b1 = self.read_eeprom_u8(addr + 1);
        let b2 = self.read_eeprom_u8(addr + 2);
        let b3 = self.read_eeprom_u8(addr + 3);
        b0 as u32 + (b1 as u32) * 0x100 + (b2 as u32) * 0x1_0000 + (b3 as u32) * 0x100_0000
    }

    pub fn write_eeprom_u32(&mut self, addr: u8, value: u32)
        requires
            old(self).wf(),
            addr + 3 < EEPROM_SIZE,
        ensures
            final(self).wf(),
            final(self)@ == with_dword(old(self)@, addr as int, value),
    {
        self.write_eeprom_u8(addr, (value % 0x100) as u8);
        self.write_eeprom_u8(addr + 1, ((value / 0x100) % 0x100) as u8);
        self.write_eeprom_u8(addr + 2, ((value / 0x1_0000) % 0x100) as u8);
        self.write_eeprom_u8(addr + 3, (value / 0x100_0000) as u8);
    }
}

/// Writing a byte and reading it back at the same address hands back the
/// byte written.
pub proof fn lemma_eeprom_u8_round_trip(mem: Seq<u8>, addr: int, value: u8)
    requires
        0 <= addr < mem.len(),
    ensures
        mem.update(addr, value)[addr] == value,
{
}

/// Writing a 16-bit word and reading it back at the same address hands
/// back the word written.
pub proof fn lemma_eeprom_u16_round_trip(mem: Seq<u8>, addr: int, value: u16)
    requires
        0 <= addr,
        addr + 1 < mem.len(),
    ensures
        word_at(with_word(mem, addr, value), addr) == value,
{
    vstd::arithmetic::div_mod::lemma_fundamental_div_mod(value as int, 0x100);
}

/// Writing a 32-bit word and reading it back at the same address hands
/// back the word written.
pub proof fn lemma_eeprom_u32_round_trip(mem: Seq<u8>, addr: int, value: u32)
    requires
        0 <= addr,
        addr + 3 < mem.len(),
    ensures
        dword_at(with_dword(mem, addr, value), addr) == value,
{
    let v = value as int;
    vstd::arithmetic::div_mod::lemma_fundamental_div_mod(v, 0x100);
    vstd::arithmetic::div_mod::lemma_fundamental_div_mod(v / 0x100, 0x100);
    vstd::arithmetic::div_mod::lemma_fundamental_div_mod(v / 0x1_0000, 0x100);
    vstd::arithmetic::div_mod::lemma_div_denominator(v, 0x100, 0x100);
    vstd::arithmetic::div_mod::lemma_div_denominator(v, 0x1_0000, 0x100);
    assert(v / 0x100_0000 < 0x100) by (nonlinear_arith)
        requires
            0 <= v < 0x1_0000_0000,
    ;
}

/// A 16-bit cast round trip: storing a signed extreme as its unsigned bit
/// pattern and reading it back recovers the extreme.
pub proof fn lemma_i16_u16_round_trip(x: i16)
    ensures
        ((x as u16) as i16) == x,
{
    assert(((x as u16) as i16) == x) by (bit_vector);
}

impl Eeprom {
    /// Persist the four magnetometer extremes at their fixed addresses.
    /// Bytes outside the magnetometer area are untouched.
    pub fn store_imu_calibration(&mut self, x_min: i16, x_max: i16, y_min: i16, y_max: i16)
        requires
            old(self).wf(),
        ensures
            final(self).wf(),
            word_at(final(self)@, IMU_X_MIN_ADDR as int) == x_min as u16,
            word_at(final(self)@, IMU_X_MAX_ADDR as int) == x_max as u16,
            word_at(final(self)@, IMU_Y_MIN_ADDR as int) == y_min as u16,
            word_at(final(self)@, IMU_Y_MAX_ADDR as int) == y_max as u16,
            forall|a: int| 8 <= a < EEPROM_SIZE ==> final(self)@[a] == old(self)@[a],
    {
        self.write_eeprom_u16(IMU_X_MIN_ADDR, x_min as u16);
        self.write_eeprom_u16(IMU_X_MAX_ADDR, x_max as u16);
        self.write_eeprom_u16(IMU_Y_MIN_ADDR, y_min as u16);
        self.write_eeprom_u16(IMU_Y_MAX_ADDR, y_max as u16);
        proof {
            lemma_eeprom_u16_round_trip(old(self)@, 0, x_min as u16);
        }
    }

    /// Read the four magnetometer extremes back from their fixed addresses.
    pub fn load_imu_calibration(&self) -> (r: (i16, i16, i16, i16))
        requires
            self.wf(),
        ensures
            r.0 == (word_at(self@, IMU_X_MIN_ADDR as int) as u16) as i16,
            r.1 == (word_at(self@, IMU_X_MAX_ADDR as int) as u16) as i16,
            r.2 == (word_at(self@, IMU_Y_MIN_ADDR as int) as u16) as i16,
            r.3 == (word_at(self@, IMU_Y_MAX_ADDR as int) as u16) as i16,
    {
        (
            self.read_eeprom_u16(IMU_X_MIN_ADDR) as i16,
            self.read_eeprom_u16(IMU_X_MAX_ADDR) as i16,
            self.read_eeprom_u16(IMU_Y_MIN_ADDR) as i16,
            self.read_eeprom_u16(IMU_Y_MAX_ADDR) as i16,
        )
    }

    /// Persist one set of reflectance extremes: the per-channel maxima
    /// after a dark pass, the minima after a light pass.  The other set
    /// and everything outside the reflectance area are untouched.
    pub fn store_ir_extremes(&mut self, extremes: &Vec<u16>, dark: bool)
        requires
            old(self).wf(),
            extremes@.len() == 6,
        ensures
            final(self).wf(),
            dark ==> forall|i: int|
                0 <= i < 6 ==> #[trigger] word_at(final(self)@, ir_extreme_addr(i, true))
                    == extremes@[i],
            dark ==> forall|i: int|
                0 <= i < 6 ==> #[trigger] word_at(final(self)@, ir_extreme_addr(i, false))
                    == word_at(old(self)@, ir_extreme_addr(i, false)),
            !dark ==> forall|i: int|
                0 <= i < 6 ==> #[trigger] word_at(final(self)@, ir_extreme_addr(i, false))
                    == extremes@[i],
            !dark ==> forall|i: int|
                0 <= i < 6 ==> #[trigger] word_at(final(self)@, ir_extreme_addr(i, true))
                    == word_at(old(self)@, ir_extreme_addr(i, true)),
            forall|a: int|
                0 <= a < EEPROM_SIZE && !(8 <= a < END_ADDR) ==> final(self)@[a] == old(
                    self,
                )@[a],
    {
        if dark {
            self.write_eeprom_u16(IR_0_MAX_ADDR, extremes[0]);
            self.write_eeprom_u16(IR_1_MAX_ADDR, extremes[1]);
            self.write_eeprom_u16(IR_2_MAX_ADDR, extremes[2]);
            self.write_eeprom_u16(IR_3_MAX_ADDR, extremes[3]);
            self.write_eeprom_u16(IR_4_MAX_ADDR, extremes[4]);
            self.write_eeprom_u16(IR_5_MAX_ADDR, extremes[5]);
        } else {
            self.write_eeprom_u16(IR_0_MIN_ADDR, extremes[0]);
            self.write_eeprom_u16(IR_1_MIN_ADDR, extremes[1]);
            self.write_eeprom_u16(IR_2_MIN_ADDR, extremes[2]);
            self.write_eeprom_u16(IR_3_MIN_ADDR, extremes[3]);
            self.write_eeprom_u16(IR_4_MIN_ADDR, extremes[4]);
            self.write_eeprom_u16(IR_5_MIN_ADDR, extremes[5]);
        }
    }

    /// Read the six (min, max) reflectance pairs back from their fixed
    /// addresses.
    pub fn load_ir_calibration(&self) -> (pairs: Vec<(u16, u16)>)
        requires
            self.wf(),
        ensures
            pairs@.len() == 6,
            forall|i: int|
                0 <= i < 6 ==> (#[trigger] pairs@[i]).0 == word_at(self@, ir_extreme_addr(i, false))
                    && pairs@[i].1 == word_at(self@, ir_extreme_addr(i, true)),
    {
        let mut pairs: Vec<(u16, u16)> = Vec::new();
        pairs.push((self.read_eeprom_u16(IR_0_MIN_ADDR), self.read_eeprom_u16(IR_0_MAX_ADDR)));
        pairs.push((self.read_eeprom_u16(IR_1_MIN_ADDR), self.read_eeprom_u16(IR_1_MAX_ADDR)));
        pairs.push((self.read_eeprom_u16(IR_2_MIN_ADDR), self.read_eeprom_u16(IR_2_MAX_ADDR)));
        pairs.push((self.read_eeprom_u16(IR_3_MIN_ADDR), self.read_eeprom_u16(IR_3_MAX_ADDR)));
        pairs.push((self.read_eeprom_u16(IR_4_MIN_ADDR), self.read_eeprom_u16(IR_4_MAX_ADDR)));
        pairs.push((self.read_eeprom_u16(IR_5_MIN_ADDR), self.read_eeprom_u16(IR_5_MAX_ADDR)));
        pairs
    }
}

/// The address of channel `i`'s stored maximum (dark pass) or minimum
/// (light pass).
pub open spec fn ir_extreme_addr(i: int, dark: bool) -> int {
    if dark {
        10 + 4 * i
    } else {
        8 + 4 * i
    }
}

} // verus!
