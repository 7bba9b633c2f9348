use vstd::prelude::*;

verus! {

/// The four bytes of a channel's registers packed in one word, register 0 highest.
pub struct Registers {
    pub data: u32,
}

/// The bit offset of register `reg` in the packed word.
pub open spec fn lane_shift(reg: usize) -> u32 {
    (24 - 8 * reg) as u32
}

impl Registers {
    pub fn new() -> (r: Registers)
        ensures
            r.data == 0,
    {
        Registers { data: 0 }
    }

    /// Replaces the byte of register `reg` (0 to 3).
    pub fn write(&mut self, reg: usize, value: u8)
        requires
            reg <= 3,
        ensures
            final(self).data == (old(self).data & !(0xFFu32 << lane_shift(reg))) | ((value as u32) << lane_shift(reg)),
    {
        let shift: u32 = if reg == 0 {
            24
        } else if reg == 1 {
            16
        } else if reg == 2 {
            8
        } else {
            0
        };
        let mask: u32 = 0xFFu32 << shift;
        self.data = (self.data & !mask) | ((value as u32) << shift);
    }
}

/// After a write, the register reads back the byte written and the other three are unchanged.
pub proof fn lemma_write_then_read(data: u32, reg: usize, value: u8, other: usize)
    requires
        reg <= 3,
        other <= 3,
    ensures
        ({
            let d = (data & !(0xFFu32 << lane_shift(reg))) | ((value as u32) << lane_shift(reg));
            &&& (d >> lane_shift(reg)) & 0xFF == value as u32
            &&& other != reg ==> (d >> lane_shift(other)) & 0xFF == (data >> lane_shift(other)) & 0xFF
        }),
{
    let s = lane_shift(reg);
    let t = lane_shift(other);
    let v = value as u32;
    assert(s == 0 || s == 8 || s == 16 || s == 24);
    assert(t == 0 || t == 8 || t == 16 || t == 24);
    assert(v <= 0xFF);
    assert((s == 0 || s == 8 || s == 16 || s == 24) && v <= 0xFF ==> (((data & !(0xFFu32 << s)) | (v << s)) >> s)
        & 0xFF == v) by (bit_vector);
    assert((s == 0 || s == 8 || s == 16 || s == 24) && (t == 0 || t == 8 || t == 16 || t == 24) && s != t
        && v <= 0xFF ==> (((data & !(0xFFu32 << s)) | (v << s)) >> t) & 0xFF == (data >> t) & 0xFF)
        by (bit_vector);
}

} // verus!
