use vstd::prelude::*;
use super::{set_bits, AccessType, AddressingMode, CpuBusInterface, CpuError, Flags, CPU_STACK_BASE};
use super::opcodes::{lookup, opcode_table, Operation, OpcodeInfo};
use super::interrupts::Interrupt;

verus! {

/// The programmer-visible registers of the 6502.
#[derive(Clone, Copy, Debug, PartialEq, Eq, Structural)]
pub struct Registers {
    pub register_a: u8,
    pub register_x: u8,
    pub register_y: u8,
    pub stack_pointer: u8,
    pub status: u8,
    pub program_counter: u16,
}

/// What one instruction took and whether the processor stopped on it.
#[derive(Clone, Copy, Debug, PartialEq, Eq, Structural)]
pub struct StepOutcome {
    pub cycles: u8,
    pub size: u8,
    pub halted: bool,
    pub error: Option<CpuError>,
}

/// The state after one instruction, with its outcome.
pub struct Step<S> {
    pub regs: Registers,
    pub bus: S,
    pub outcome: StepOutcome,
}

// ---------------------------------------------------------------------------
// Arithmetic on machine words
// ---------------------------------------------------------------------------

pub open spec fn add16(a: u16, b: u16) -> u16 {
    if a + b > 0xFFFF {
        (a + b - 0x10000) as u16
    } else {
        (a + b) as u16
    }
}

pub open spec fn sub16(a: u16, b: u16) -> u16 {
    if a - b < 0 {
        (a - b + 0x10000) as u16
    } else {
        (a - b) as u16
    }
}

pub open spec fn add8(a: u8, b: u8) -> u8 {
    if a + b > 0xFF {
        (a + b - 0x100) as u8
    } else {
        (a + b) as u8
    }
}

pub open spec fn sub8(a: u8, b: u8) -> u8 {
    if a - b < 0 {
        (a - b + 0x100) as u8
    } else {
        (a - b) as u8
    }
}

/// The little-endian word with bytes `lo` and `hi`.
pub open spec fn word(lo: u8, hi: u8) -> u16 {
    (hi * 256 + lo) as u16
}

/// Whether `a` and `b` lie on different 256-byte pages.
pub open spec fn page_crossed(a: u16, b: u16) -> bool {
    a / 256 != b / 256
}

/// Whether every bit of `mask` is set in `status`.
pub open spec fn flag(status: u8, mask: u8) -> bool {
    status & mask == mask
}

/// `status` with ZERO and NEGATIVE describing `v`.
pub open spec fn zn(status: u8, v: u8) -> u8 {
    set_bits(set_bits(status, Flags::ZERO, v == 0), Flags::NEGATIVE, v >= 128)
}

/// A + M + C: the sum, and the status with OVERFLOW, NEGATIVE, ZERO and CARRY describing it.
pub open spec fn adc_spec(status: u8, a: u8, v: u8) -> (u8, u8) {
    let sum = a + v + (if flag(status, Flags::CARRY) { 1int } else { 0int });
    let r = (sum % 256) as u8;
    let overflow = ((a >= 128) == (v >= 128)) && ((r >= 128) != (a >= 128));
    (
        r,
        set_bits(
            set_bits(
                set_bits(set_bits(status, Flags::OVERFLOW, overflow), Flags::NEGATIVE, r >= 128),
                Flags::ZERO,
                r == 0,
            ),
            Flags::CARRY,
            sum > 255,
        ),
    )
}

/// A - M - (1 - C), which the 6502 computes as A + (255 - M) + C.
pub open spec fn sbc_spec(status: u8, a: u8, v: u8) -> (u8, u8) {
    adc_spec(status, a, (255 - v) as u8)
}

/// A compare of `reg` with `v`: CARRY when `reg >= v`, ZERO and NEGATIVE from `reg - v`.
pub open spec fn compare_spec(status: u8, reg: u8, v: u8) -> u8 {
    zn(set_bits(status, Flags::CARRY, reg >= v), sub8(reg, v))
}

/// With the carry set (no borrow pending), SBC subtracts modulo 256 and leaves the carry
/// set exactly when no borrow occurred, that is when `a >= v`.
pub proof fn lemma_sbc_subtracts(status: u8, a: u8, v: u8)
    requires
        flag(status, Flags::CARRY),
    ensures
        sbc_spec(status, a, v).0 == (a - v + 256) % 256,
        flag(sbc_spec(status, a, v).1, Flags::CARRY) == (a >= v),
{
    let r = sbc_spec(status, a, v);
    let s3 = set_bits(
        set_bits(set_bits(status, Flags::OVERFLOW, ((a >= 128) == (((255 - v) as u8) >= 128)) && ((r.0 >= 128) != (a >= 128))), Flags::NEGATIVE, r.0 >= 128),
        Flags::ZERO,
        r.0 == 0,
    );
    let c = a >= v;
    assert(r.1 == set_bits(s3, Flags::CARRY, c));
    assert(set_bits(s3, 1, c) & 1 == 1 <==> c) by (bit_vector);
}

pub open spec fn rotate_left_spec(v: u8, carry: bool) -> (u8, bool) {
    (((v % 128) * 2 + (if carry { 1int } else { 0int })) as u8, v >= 128)
}

pub open spec fn rotate_right_spec(v: u8, carry: bool) -> (u8, bool) {
    ((v / 2 + (if carry { 128int } else { 0int })) as u8, v % 2 == 1)
}

proof fn lemma_high_bit(v: u8)
    ensures
        (v & 0x80 != 0) == (v >= 128),
        (v & 0x80 == 0x80) == (v >= 128),
{
    assert((v & 0x80 != 0) == (v >= 128)) by (bit_vector);
    assert((v & 0x80 == 0x80) == (v >= 128)) by (bit_vector);
}

proof fn lemma_sign_xor(a: u8, b: u8)
    ensures
        ((a ^ b) & 0x80 != 0) == ((a >= 128) != (b >= 128)),
{
    assert(((a ^ b) & 0x80 != 0) == ((a >= 128) != (b >= 128))) by (bit_vector);
}

proof fn lemma_not(v: u8)
    ensures
        !v == 255 - v,
{
    assert(!v == 255 - v) by (bit_vector);
}

/// `status` with ZERO and NEGATIVE describing `v`.
pub fn update_zero_and_negative_flags(status: u8, v: u8) -> (r: u8)
    ensures
        r == zn(status, v),
{
    let mut f = Flags { bits: status };
    f.set(Flags::ZERO, v == 0);
    proof {
        lemma_high_bit(v);
    }
    f.set(Flags::NEGATIVE, v & 0b1000_0000 != 0);
    f.bits
}

fn has_flag(status: u8, mask: u8) -> (r: bool)
    ensures
        r == flag(status, mask),
{
    status & mask == mask
}

/// Add with carry into A; returns the new A and status.
pub fn add_with_carry(status: u8, a: u8, value: u8) -> (r: (u8, u8))
    ensures
        r == adc_spec(status, a, value),
{
    let curr_carry: u16 = if has_flag(status, Flags::CARRY) { 1 } else { 0 };
    let sum: u16 = a as u16 + value as u16 + curr_carry;
    let result: u8 = (sum % 256) as u8;
    proof {
        lemma_sign_xor(a, result);
        lemma_sign_xor(a, value);
    }
    // Signed overflow: the inputs share a sign that the result lacks.
    let signed_overflow = ((a ^ result) & 0x80 != 0) && ((a ^ value) & 0x80 == 0);
    let mut f = Flags { bits: status };
    f.set(Flags::OVERFLOW, signed_overflow);
    f.set(Flags::NEGATIVE, result >= 0x80);
    f.set(Flags::ZERO, result == 0);
    f.set(Flags::CARRY, sum > 0xFF);
    (result, f.bits)
}

/// Subtract with borrow from A, as the addition of the complement.
pub fn sub_with_borrow(status: u8, a: u8, value: u8) -> (r: (u8, u8))
    ensures
        r == sbc_spec(status, a, value),
{
    proof {
        lemma_not(value);
    }
    add_with_carry(status, a, !value)
}

pub fn compare(status: u8, reg: u8, value: u8) -> (r: u8)
    ensures
        r == compare_spec(status, reg, value),
{
    let mut f = Flags { bits: status };
    f.set(Flags::CARRY, reg >= value);
    update_zero_and_negative_flags(f.bits, reg.wrapping_sub(value))
}

/// Rotates `value` left through the carry: returns the result and the carry shifted out.
pub fn rotate_value_left(value: u8, current_carry: bool) -> (r: (u8, bool))
    ensures
        r == rotate_left_spec(value, current_carry),
{
    let new_carry = value >= 0b1000_0000;
    let shifted: u8 = (value % 128) * 2 + if current_carry { 1 } else { 0 };
    (shifted, new_carry)
}

/// Rotates `value` right through the carry: returns the result and the carry shifted out.
pub fn rotate_value_right(value: u8, current_carry: bool) -> (r: (u8, bool))
    ensures
        r == rotate_right_spec(value, current_carry),
{
    let new_carry = value % 2 == 1;
    let shifted: u8 = value / 2 + if current_carry { 128 } else { 0 };
    (shifted, new_carry)
}

/// Rotating right undoes rotating left, carry included.
pub proof fn lemma_rotate_right_undoes_left(value: u8, carry: bool)
    ensures
        rotate_right_spec(rotate_left_spec(value, carry).0, rotate_left_spec(value, carry).1)
            == (value, carry),
{
}

/// Rotating left undoes rotating right, carry included.
pub proof fn lemma_rotate_left_undoes_right(value: u8, carry: bool)
    ensures
        rotate_left_spec(rotate_right_spec(value, carry).0, rotate_right_spec(value, carry).1)
            == (value, carry),
{
}

// ---------------------------------------------------------------------------
// The bus as the processor sees it
// ---------------------------------------------------------------------------

pub open spec fn read_byte<B: CpuBusInterface>(bus: B::State, addr: u16) -> (u8, B::State) {
    (B::read_value(bus, addr), B::after_read(bus, addr))
}

/// A little-endian word read from `addr` and `addr + 1`.
pub open spec fn read_word<B: CpuBusInterface>(bus: B::State, addr: u16) -> (u16, B::State) {
    let lo = read_byte::<B>(bus, addr);
    let hi = read_byte::<B>(lo.1, add16(addr, 1));
    (word(lo.0, hi.0), hi.1)
}

pub fn read_u16<B: CpuBusInterface>(bus: &mut B, addr: u16) -> (w: u16)
    ensures
        (w, final(bus).state()) == read_word::<B>(old(bus).state(), addr),
{
    let lo = bus.cpu_bus_read(addr);
    let hi = bus.cpu_bus_read(addr.wrapping_add(1));
    (hi as u16) * 256 + (lo as u16)
}

/// Where an operand lives, whether indexing crossed a page, and the bus after finding it.
pub struct Operand<S> {
    pub addr: u16,
    pub crossed: bool,
    pub bus: S,
}

/// The target of a branch by the signed offset `off` from `next`.
pub open spec fn relative_target(next: u16, off: u8) -> u16 {
    if off < 128 {
        add16(next, off as u16)
    } else {
        sub16(next, (256 - off) as u16)
    }
}

/// Finds the operand of an instruction whose operand bytes start at `pc`.
pub open spec fn resolve_spec<B: CpuBusInterface>(
    mode: AddressingMode,
    x: u8,
    y: u8,
    pc: u16,
    bus: B::State,
) -> Operand<B::State> {
    match mode {
        AddressingMode::Immediate => Operand { addr: pc, crossed: false, bus },
        AddressingMode::ZeroPage => {
            let z = read_byte::<B>(bus, pc);
            Operand { addr: z.0 as u16, crossed: false, bus: z.1 }
        },
        AddressingMode::ZeroPageX => {
            let z = read_byte::<B>(bus, pc);
            Operand { addr: add8(z.0, x) as u16, crossed: false, bus: z.1 }
        },
        AddressingMode::ZeroPageY => {
            let z = read_byte::<B>(bus, pc);
            Operand { addr: add8(z.0, y) as u16, crossed: false, bus: z.1 }
        },
        AddressingMode::Absolute => {
            let w = read_word::<B>(bus, pc);
            Operand { addr: w.0, crossed: false, bus: w.1 }
        },
        AddressingMode::AbsoluteX => {
            let w = read_word::<B>(bus, pc);
            let a = add16(w.0, x as u16);
            Operand { addr: a, crossed: page_crossed(w.0, a), bus: w.1 }
        },
        AddressingMode::AbsoluteY => {
            let w = read_word::<B>(bus, pc);
            let a = add16(w.0, y as u16);
            Operand { addr: a, crossed: page_crossed(w.0, a), bus: w.1 }
        },
        AddressingMode::IndirectX => {
            // The pointer lives in the zero page and wraps within it.
            let z = read_byte::<B>(bus, pc);
            let p = add8(z.0, x);
            let lo = read_byte::<B>(z.1, p as u16);
            let hi = read_byte::<B>(lo.1, add8(p, 1) as u16);
            Operand { addr: word(lo.0, hi.0), crossed: false, bus: hi.1 }
        },
        AddressingMode::IndirectY => {
            let z = read_byte::<B>(bus, pc);
            let lo = read_byte::<B>(z.1, z.0 as u16);
            let hi = read_byte::<B>(lo.1, add8(z.0, 1) as u16);
            let base = word(lo.0, hi.0);
            let a = add16(base, y as u16);
            Operand { addr: a, crossed: page_crossed(base, a), bus: hi.1 }
        },
        AddressingMode::Indirect => {
            // The 6502 takes the high byte from the start of the vector's page
            // when the vector sits at the end of a page.
            let v = read_word::<B>(bus, pc);
            let lo = read_byte::<B>(v.1, v.0);
            let hi_addr = word(add8((v.0 % 256) as u8, 1), (v.0 / 256) as u8);
            let hi = read_byte::<B>(lo.1, hi_addr);
            Operand { addr: word(lo.0, hi.0), crossed: false, bus: hi.1 }
        },
        AddressingMode::Relative => {
            let o = read_byte::<B>(bus, pc);
            let next = add16(pc, 1);
            let target = relative_target(next, o.0);
            Operand { addr: target, crossed: page_crossed(next, target), bus: o.1 }
        },
        AddressingMode::Implied => Operand { addr: 0, crossed: false, bus },
    }
}

fn word_of(lo: u8, hi: u8) -> (w: u16)
    ensures
        w == word(lo, hi),
{
    (hi as u16) * 256 + (lo as u16)
}

fn crosses_page(a: u16, b: u16) -> (r: bool)
    ensures
        r == page_crossed(a, b),
{
    a / 256 != b / 256
}

/// Finds the operand of an instruction whose operand bytes start at `pc`.
pub fn resolve<B: CpuBusInterface>(
    mode: AddressingMode,
    x: u8,
    y: u8,
    pc: u16,
    bus: &mut B,
) -> (r: (u16, bool))
    ensures
        ({
            let o = resolve_spec::<B>(mode, x, y, pc, old(bus).state());
            r.0 == o.addr && r.1 == o.crossed && final(bus).state() == o.bus
        }),
{
    match mode {
        AddressingMode::Immediate => (pc, false),
        AddressingMode::ZeroPage => {
            let z = bus.cpu_bus_read(pc);
            (z as u16, false)
        },
        AddressingMode::ZeroPageX => {
            let z = bus.cpu_bus_read(pc);
            (z.wrapping_add(x) as u16, false)
        },
        AddressingMode::ZeroPageY => {
            let z = bus.cpu_bus_read(pc);
            (z.wrapping_add(y) as u16, false)
        },
        AddressingMode::Absolute => {
            let w = read_u16(bus, pc);
            (w, false)
        },
        AddressingMode::AbsoluteX => {
            let w = read_u16(bus, pc);
            let a = w.wrapping_add(x as u16);
            (a, crosses_page(w, a))
        },
        AddressingMode::AbsoluteY => {
            let w = read_u16(bus, pc);
            let a = w.wrapping_add(y as u16);
            (a, crosses_page(w, a))
        },
        AddressingMode::IndirectX => {
            let z = bus.cpu_bus_read(pc);
            let p = z.wrapping_add(x);
            let lo = bus.cpu_bus_read(p as u16);
            let hi = bus.cpu_bus_read(p.wrapping_add(1) as u16);
            (word_of(lo, hi), false)
        },
        AddressingMode::IndirectY => {
            let z = bus.cpu_bus_read(pc);
            let lo = bus.cpu_bus_read(z as u16);
            let hi = bus.cpu_bus_read(z.wrapping_add(1) as u16);
            let base = word_of(lo, hi);
            let a = base.wrapping_add(y as u16);
            (a, crosses_page(base, a))
        },
        AddressingMode::Indirect => {
            let v = read_u16(bus, pc);
            let lo = bus.cpu_bus_read(v);
            let hi_addr = word_of(((v % 256) as u8).wrapping_add(1), (v / 256) as u8);
            let hi = bus.cpu_bus_read(hi_addr);
            (word_of(lo, hi), false)
        },
        AddressingMode::Relative => {
            let o = bus.cpu_bus_read(pc);
            let next = pc.wrapping_add(1);
            let target = if o < 128 {
                next.wrapping_add(o as u16)
            } else {
                next.wrapping_sub(256 - o as u16)
            };
            (target, crosses_page(next, target))
        },
        AddressingMode::Implied => (0, false),
    }
}

// ---------------------------------------------------------------------------
// What each operation does to the registers
// ---------------------------------------------------------------------------

/// Operations that read their operand and change only registers.
pub open spec fn is_read_op(op: Operation) -> bool {
    match op {
        Operation::Lda | Operation::Ldx | Operation::Ldy | Operation::Lax | Operation::Adc
        | Operation::Sbc | Operation::Usbc | Operation::And | Operation::Eor | Operation::Ora
        | Operation::Cmp | Operation::Cpx | Operation::Cpy | Operation::Bit | Operation::Anc
        | Operation::Alr | Operation::Arr | Operation::Sbx | Operation::Las | Operation::FatNop => true,
        _ => false,
    }
}

/// Operations that read their operand, write a new value back and change registers.
pub open spec fn is_rmw_op(op: Operation) -> bool {
    match op {
        Operation::Asl | Operation::Lsr | Operation::Rol | Operation::Ror | Operation::Inc
        | Operation::Dec | Operation::Dcp | Operation::Isc | Operation::Rla | Operation::Rra
        | Operation::Slo | Operation::Sre => true,
        _ => false,
    }
}

/// Operations that write a register (or two ANDed) to their operand.
pub open spec fn is_store_op(op: Operation) -> bool {
    match op {
        Operation::Sta | Operation::Stx | Operation::Sty | Operation::Sax => true,
        _ => false,
    }
}

/// Operations that touch neither memory nor the program counter.
pub open spec fn is_implied_op(op: Operation) -> bool {
    match op {
        Operation::Tax | Operation::Tay | Operation::Tsx | Operation::Txa | Operation::Txs
        | Operation::Tya | Operation::Sec | Operation::Sed | Operation::Sei | Operation::Clc
        | Operation::Cld | Operation::Cli | Operation::Clv | Operation::Inx | Operation::Iny
        | Operation::Dex | Operation::Dey | Operation::AslAcc | Operation::LsrAcc
        | Operation::RolAcc | Operation::RorAcc | Operation::Nop => true,
        _ => false,
    }
}

pub open spec fn read_op_spec(op: Operation, r: Registers, v: u8) -> Registers {
    let s = r.status;
    match op {
        Operation::Lda => Registers { register_a: v, status: zn(s, v), ..r },
        Operation::Ldx => Registers { register_x: v, status: zn(s, v), ..r },
        Operation::Ldy => Registers { register_y: v, status: zn(s, v), ..r },
        Operation::Lax => Registers { register_a: v, register_x: v, status: zn(zn(s, v), v), ..r },
        Operation::Adc => {
            let t = adc_spec(s, r.register_a, v);
            Registers { register_a: t.0, status: t.1, ..r }
        },
        Operation::Sbc | Operation::Usbc => {
            let t = sbc_spec(s, r.register_a, v);
            Registers { register_a: t.0, status: t.1, ..r }
        },
        Operation::And => Registers { register_a: r.register_a & v, status: zn(s, r.register_a & v), ..r },
        Operation::Eor => Registers { register_a: r.register_a ^ v, status: zn(s, r.register_a ^ v), ..r },
        Operation::Ora => Registers { register_a: r.register_a | v, status: zn(s, r.register_a | v), ..r },
        Operation::Cmp => Registers { status: compare_spec(s, r.register_a, v), ..r },
        Operation::Cpx => Registers { status: compare_spec(s, r.register_x, v), ..r },
        Operation::Cpy => Registers { status: compare_spec(s, r.register_y, v), ..r },
        Operation::Bit => Registers {
            status: set_bits(
                set_bits(set_bits(s, Flags::NEGATIVE, v >= 128), Flags::OVERFLOW, v & 0x40 != 0),
                Flags::ZERO,
                v & r.register_a == 0,
            ),
            ..r
        },
        Operation::Anc => {
            let a = r.register_a & v;
            Registers { register_a: a, status: set_bits(zn(s, a), Flags::CARRY, a >= 128), ..r }
        },
        Operation::Alr => {
            let a = r.register_a & v;
            let shifted = a / 2;
            Registers {
                register_a: shifted,
                status: zn(set_bits(zn(s, a), Flags::CARRY, a % 2 == 1), shifted),
                ..r
            }
        },
        Operation::Arr => {
            let a = r.register_a & v;
            let res = rotate_right_spec(a, flag(s, Flags::CARRY)).0;
            Registers {
                register_a: res,
                status: set_bits(
                    set_bits(zn(s, res), Flags::CARRY, res & 0x40 != 0),
                    Flags::OVERFLOW,
                    (res & 0x40 != 0) != (res & 0x20 != 0),
                ),
                ..r
            }
        },
        Operation::Sbx => {
            let and = r.register_a & r.register_x;
            let res = sub8(and, v);
            Registers { register_x: res, status: zn(set_bits(s, Flags::CARRY, and >= v), res), ..r }
        },
        Operation::Las => {
            let res = v & r.stack_pointer;
            Registers { register_a: res, register_x: res, stack_pointer: res, status: zn(s, res), ..r }
        },
        _ => r,
    }
}

/// The new memory value and registers of a read-modify-write operation on `v`.
pub open spec fn rmw_spec(op: Operation, r: Registers, v: u8) -> (u8, Registers) {
    let s = r.status;
    let c = flag(s, Flags::CARRY);
    match op {
        Operation::Asl => {
            let nv = ((v % 128) * 2) as u8;
            (nv, Registers { status: zn(set_bits(s, Flags::CARRY, v >= 128), nv), ..r })
        },
        Operation::Lsr => {
            let nv = v / 2;
            (nv, Registers { status: zn(set_bits(s, Flags::CARRY, v % 2 == 1), nv), ..r })
        },
        Operation::Rol => {
            let t = rotate_left_spec(v, c);
            (t.0, Registers { status: set_bits(zn(s, t.0), Flags::CARRY, t.1), ..r })
        },
        Operation::Ror => {
            let t = rotate_right_spec(v, c);
            (t.0, Registers { status: set_bits(zn(s, t.0), Flags::CARRY, t.1), ..r })
        },
        Operation::Inc => {
            let nv = add8(v, 1);
            (nv, Registers { status: zn(s, nv), ..r })
        },
        Operation::Dec => {
            let nv = sub8(v, 1);
            (nv, Registers { status: zn(s, nv), ..r })
        },
        Operation::Dcp => {
            let nv = sub8(v, 1);
            (nv, Registers { status: compare_spec(zn(s, nv), r.register_a, nv), ..r })
        },
        Operation::Isc => {
            let nv = add8(v, 1);
            let t = sbc_spec(zn(s, nv), r.register_a, nv);
            (nv, Registers { register_a: t.0, status: t.1, ..r })
        },
        Operation::Rla => {
            let t = rotate_left_spec(v, c);
            let s1 = set_bits(zn(s, t.0), Flags::CARRY, t.1);
            let a = r.register_a & t.0;
            (t.0, Registers { register_a: a, status: zn(s1, a), ..r })
        },
        Operation::Rra => {
            let t = rotate_right_spec(v, c);
            let s1 = set_bits(zn(s, t.0), Flags::CARRY, t.1);
            let u = adc_spec(s1, r.register_a, t.0);
            (t.0, Registers { register_a: u.0, status: u.1, ..r })
        },
        Operation::Slo => {
            let nv = ((v % 128) * 2) as u8;
            let s1 = zn(set_bits(s, Flags::CARRY, v >= 128), nv);
            let a = r.register_a | nv;
            (nv, Registers { register_a: a, status: zn(s1, a), ..r })
        },
        Operation::Sre => {
            let nv = v / 2;
            let s1 = zn(set_bits(s, Flags::CARRY, v % 2 == 1), nv);
            let a = r.register_a ^ nv;
            (nv, Registers { register_a: a, status: zn(s1, a), ..r })
        },
        _ => (v, r),
    }
}

pub open spec fn implied_spec(op: Operation, r: Registers) -> Registers {
    let s = r.status;
    let a = r.register_a;
    let c = flag(s, Flags::CARRY);
    match op {
        Operation::Tax => Registers { register_x: a, status: zn(s, a), ..r },
        Operation::Tay => Registers { register_y: a, status: zn(s, a), ..r },
        Operation::Tsx => Registers { register_x: r.stack_pointer, status: zn(s, r.stack_pointer), ..r },
        Operation::Txa => Registers { register_a: r.register_x, status: zn(s, r.register_x), ..r },
        Operation::Txs => Registers { stack_pointer: r.register_x, ..r },
        Operation::Tya => Registers { register_a: r.register_y, status: zn(s, r.register_y), ..r },
        Operation::Sec => Registers { status: s | Flags::CARRY, ..r },
        Operation::Sed => Registers { status: s | Flags::DECIMAL_MODE, ..r },
        Operation::Sei => Registers { status: s | Flags::INTERRUPT_DISABLE, ..r },
        Operation::Clc => Registers { status: s & !Flags::CARRY, ..r },
        Operation::Cld => Registers { status: s & !Flags::DECIMAL_MODE, ..r },
        Operation::Cli => Registers { status: s & !Flags::INTERRUPT_DISABLE, ..r },
        Operation::Clv => Registers { status: s & !Flags::OVERFLOW, ..r },
        Operation::Inx => Registers { register_x: add8(r.register_x, 1), status: zn(s, add8(r.register_x, 1)), ..r },
        Operation::Iny => Registers { register_y: add8(r.register_y, 1), status: zn(s, add8(r.register_y, 1)), ..r },
        Operation::Dex => Registers { register_x: sub8(r.register_x, 1), status: zn(s, sub8(r.register_x, 1)), ..r },
        Operation::Dey => Registers { register_y: sub8(r.register_y, 1), status: zn(s, sub8(r.register_y, 1)), ..r },
        Operation::AslAcc => {
            let na = ((a % 128) * 2) as u8;
            Registers { register_a: na, status: zn(set_bits(s, Flags::CARRY, a >= 128), na), ..r }
        },
        Operation::LsrAcc => {
            let na = a / 2;
            Registers { register_a: na, status: zn(set_bits(s, Flags::CARRY, a % 2 == 1), na), ..r }
        },
        Operation::RolAcc => {
            let t = rotate_left_spec(a, c);
            Registers { register_a: t.0, status: set_bits(zn(s, t.0), Flags::CARRY, t.1), ..r }
        },
        Operation::RorAcc => {
            let t = rotate_right_spec(a, c);
            Registers { register_a: t.0, status: set_bits(zn(s, t.0), Flags::CARRY, t.1), ..r }
        },
        _ => r,
    }
}

/// The byte a store operation writes.
pub open spec fn store_value_spec(op: Operation, r: Registers) -> u8 {
    match op {
        Operation::Sta => r.register_a,
        Operation::Stx => r.register_x,
        Operation::Sty => r.register_y,
        _ => r.register_a & r.register_x,
    }
}

/// Whether a branch operation is taken under `status`.
pub open spec fn branch_taken(op: Operation, status: u8) -> bool {
    match op {
        Operation::Bne => !flag(status, Flags::ZERO),
        Operation::Beq => flag(status, Flags::ZERO),
        Operation::Bvs => flag(status, Flags::OVERFLOW),
        Operation::Bvc => !flag(status, Flags::OVERFLOW),
        Operation::Bmi => flag(status, Flags::NEGATIVE),
        Operation::Bpl => !flag(status, Flags::NEGATIVE),
        Operation::Bcs => flag(status, Flags::CARRY),
        _ => !flag(status, Flags::CARRY),
    }
}

pub open spec fn is_branch_op(op: Operation) -> bool {
    match op {
        Operation::Bne | Operation::Beq | Operation::Bvs | Operation::Bvc | Operation::Bmi
        | Operation::Bpl | Operation::Bcs | Operation::Bcc => true,
        _ => false,
    }
}

pub fn is_read_operation(op: Operation) -> (r: bool)
    ensures
        r == is_read_op(op),
{
    match op {
        Operation::Lda | Operation::Ldx | Operation::Ldy | Operation::Lax | Operation::Adc
        | Operation::Sbc | Operation::Usbc | Operation::And | Operation::Eor | Operation::Ora
        | Operation::Cmp | Operation::Cpx | Operation::Cpy | Operation::Bit | Operation::Anc
        | Operation::Alr | Operation::Arr | Operation::Sbx | Operation::Las | Operation::FatNop => true,
        _ => false,
    }
}

pub fn is_rmw_operation(op: Operation) -> (r: bool)
    ensures
        r == is_rmw_op(op),
{
    match op {
        Operation::Asl | Operation::Lsr | Operation::Rol | Operation::Ror | Operation::Inc
        | Operation::Dec | Operation::Dcp | Operation::Isc | Operation::Rla | Operation::Rra
        | Operation::Slo | Operation::Sre => true,
        _ => false,
    }
}

pub fn is_store_operation(op: Operation) -> (r: bool)
    ensures
        r == is_store_op(op),
{
    match op {
        Operation::Sta | Operation::Stx | Operation::Sty | Operation::Sax => true,
        _ => false,
    }
}

pub fn is_implied_operation(op: Operation) -> (r: bool)
    ensures
        r == is_implied_op(op),
{
    match op {
        Operation::Tax | Operation::Tay | Operation::Tsx | Operation::Txa | Operation::Txs
        | Operation::Tya | Operation::Sec | Operation::Sed | Operation::Sei | Operation::Clc
        | Operation::Cld | Operation::Cli | Operation::Clv | Operation::Inx | Operation::Iny
        | Operation::Dex | Operation::Dey | Operation::AslAcc | Operation::LsrAcc
        | Operation::RolAcc | Operation::RorAcc | Operation::Nop => true,
        _ => false,
    }
}

pub fn is_branch_operation(op: Operation) -> (r: bool)
    ensures
        r == is_branch_op(op),
{
    match op {
        Operation::Bne | Operation::Beq | Operation::Bvs | Operation::Bvc | Operation::Bmi
        | Operation::Bpl | Operation::Bcs | Operation::Bcc => true,
        _ => false,
    }
}

/// Applies an operation that reads `v` to the registers.
pub fn apply_read_op(op: Operation, r: Registers, v: u8) -> (out: Registers)
    ensures
        out == read_op_spec(op, r, v),
{
    let s = r.status;
    match op {
        Operation::Lda => Registers { register_a: v, status: update_zero_and_negative_flags(s, v), ..r },
        Operation::Ldx => Registers { register_x: v, status: update_zero_and_negative_flags(s, v), ..r },
        Operation::Ldy => Registers { register_y: v, status: update_zero_and_negative_flags(s, v), ..r },
        Operation::Lax => {
            let s1 = update_zero_and_negative_flags(s, v);
            Registers { register_a: v, register_x: v, status: update_zero_and_negative_flags(s1, v), ..r }
        },
        Operation::Adc => {
            let t = add_with_carry(s, r.register_a, v);
            Registers { register_a: t.0, status: t.1, ..r }
        },
        Operation::Sbc | Operation::Usbc => {
            let t = sub_with_borrow(s, r.register_a, v);
            Registers { register_a: t.0, status: t.1, ..r }
        },
        Operation::And => {
            let a = r.register_a & v;
            Registers { register_a: a, status: update_zero_and_negative_flags(s, a), ..r }
        },
        Operation::Eor => {
            let a = r.register_a ^ v;
            Registers { register_a: a, status: update_zero_and_negative_flags(s, a), ..r }
        },
        Operation::Ora => {
            let a = r.register_a | v;
            Registers { register_a: a, status: update_zero_and_negative_flags(s, a), ..r }
        },
        Operation::Cmp => Registers { status: compare(s, r.register_a, v), ..r },
        Operation::Cpx => Registers { status: compare(s, r.register_x, v), ..r },
        Operation::Cpy => Registers { status: compare(s, r.register_y, v), ..r },
        Operation::Bit => {
            // NEGATIVE and OVERFLOW come from the fetched byte itself.
            let mut f = Flags { bits: s };
            f.set(Flags::NEGATIVE, v >= 128);
            f.set(Flags::OVERFLOW, v & 0x40 != 0);
            f.set(Flags::ZERO, v & r.register_a == 0);
            Registers { status: f.bits, ..r }
        },
        Operation::Anc => {
            let a = r.register_a & v;
            let mut f = Flags { bits: update_zero_and_negative_flags(s, a) };
            f.set(Flags::CARRY, a >= 128);
            Registers { register_a: a, status: f.bits, ..r }
        },
        Operation::Alr => {
            let a = r.register_a & v;
            let mut f = Flags { bits: update_zero_and_negative_flags(s, a) };
            f.set(Flags::CARRY, a % 2 == 1);
            let shifted = a / 2;
            Registers { register_a: shifted, status: update_zero_and_negative_flags(f.bits, shifted), ..r }
        },
        Operation::Arr => {
            let a = r.register_a & v;
            let (res, _) = rotate_value_right(a, has_flag(s, Flags::CARRY));
            let mut f = Flags { bits: update_zero_and_negative_flags(s, res) };
            f.set(Flags::CARRY, res & 0x40 != 0);
            f.set(Flags::OVERFLOW, (res & 0x40 != 0) != (res & 0x20 != 0));
            Registers { register_a: res, status: f.bits, ..r }
        },
        Operation::Sbx => {
            let and = r.register_a & r.register_x;
            let res = and.wrapping_sub(v);
            let mut f = Flags { bits: s };
            f.set(Flags::CARRY, and >= v);
            Registers { register_x: res, status: update_zero_and_negative_flags(f.bits, res), ..r }
        },
        Operation::Las => {
            let res = v & r.stack_pointer;
            Registers {
                register_a: res,
                register_x: res,
                stack_pointer: res,
                status: update_zero_and_negative_flags(s, res),
                ..r
            }
        },
        _ => r,
    }
}

/// Applies a read-modify-write operation to `v`: the value to write back and the new registers.
pub fn apply_rmw_op(op: Operation, r: Registers, v: u8) -> (out: (u8, Registers))
    ensures
        out == rmw_spec(op, r, v),
{
    let s = r.status;
    let c = has_flag(s, Flags::CARRY);
    match op {
        Operation::Asl => {
            let nv = (v % 128) * 2;
            let mut f = Flags { bits: s };
            f.set(Flags::CARRY, v >= 128);
            (nv, Registers { status: update_zero_and_negative_flags(f.bits, nv), ..r })
        },
        Operation::Lsr => {
            let nv = v / 2;
            let mut f = Flags { bits: s };
            f.set(Flags::CARRY, v % 2 == 1);
            (nv, Registers { status: update_zero_and_negative_flags(f.bits, nv), ..r })
        },
        Operation::Rol => {
            let (nv, nc) = rotate_value_left(v, c);
            let mut f = Flags { bits: update_zero_and_negative_flags(s, nv) };
            f.set(Flags::CARRY, nc);
            (nv, Registers { status: f.bits, ..r })
        },
        Operation::Ror => {
            let (nv, nc) = rotate_value_right(v, c);
            let mut f = Flags { bits: update_zero_and_negative_flags(s, nv) };
            f.set(Flags::CARRY, nc);
            (nv, Registers { status: f.bits, ..r })
        },
        Operation::Inc => {
            let nv = v.wrapping_add(1);
            (nv, Registers { status: update_zero_and_negative_flags(s, nv), ..r })
        },
        Operation::Dec => {
            let nv = v.wrapping_sub(1);
            (nv, Registers { status: update_zero_and_negative_flags(s, nv), ..r })
        },
        Operation::Dcp => {
            let nv = v.wrapping_sub(1);
            let s1 = update_zero_and_negative_flags(s, nv);
            (nv, Registers { status: compare(s1, r.register_a, nv), ..r })
        },
        Operation::Isc => {
            let nv = v.wrapping_add(1);
            let s1 = update_zero_and_negative_flags(s, nv);
            let t = sub_with_borrow(s1, r.register_a, nv);
            (nv, Registers { register_a: t.0, status: t.1, ..r })
        },
        Operation::Rla => {
            let (nv, nc) = rotate_value_left(v, c);
            let mut f = Flags { bits: update_zero_and_negative_flags(s, nv) };
            f.set(Flags::CARRY, nc);
            let a = r.register_a & nv;
            (nv, Registers { register_a: a, status: update_zero_and_negative_flags(f.bits, a), ..r })
        },
        Operation::Rra => {
            let (nv, nc) = rotate_value_right(v, c);
            let mut f = Flags { bits: update_zero_and_negative_flags(s, nv) };
            f.set(Flags::CARRY, nc);
            let t = add_with_carry(f.bits, r.register_a, nv);
            (nv, Registers { register_a: t.0, status: t.1, ..r })
        },
        Operation::Slo => {
            let nv = (v % 128) * 2;
            let mut f = Flags { bits: s };
            f.set(Flags::CARRY, v >= 128);
            let s1 = update_zero_and_negative_flags(f.bits, nv);
            let a = r.register_a | nv;
            (nv, Registers { register_a: a, status: update_zero_and_negative_flags(s1, a), ..r })
        },
        Operation::Sre => {
            let nv = v / 2;
            let mut f = Flags { bits: s };
            f.set(Flags::CARRY, v % 2 == 1);
            let s1 = update_zero_and_negative_flags(f.bits, nv);
            let a = r.register_a ^ nv;
            (nv, Registers { register_a: a, status: update_zero_and_negative_flags(s1, a), ..r })
        },
        _ => (v, r),
    }
}

/// Applies an operation that needs no operand.
pub fn apply_implied_op(op: Operation, r: Registers) -> (out: Registers)
    ensures
        out == implied_spec(op, r),
{
    let s = r.status;
    let a = r.register_a;
    let c = has_flag(s, Flags::CARRY);
    match op {
        Operation::Tax => Registers { register_x: a, status: update_zero_and_negative_flags(s, a), ..r },
        Operation::Tay => Registers { register_y: a, status: update_zero_and_negative_flags(s, a), ..r },
        Operation::Tsx => Registers {
            register_x: r.stack_pointer,
            status: update_zero_and_negative_flags(s, r.stack_pointer),
            ..r
        },
        Operation::Txa => Registers {
            register_a: r.register_x,
            status: update_zero_and_negative_flags(s, r.register_x),
            ..r
        },
        Operation::Txs => Registers { stack_pointer: r.register_x, ..r },
        Operation::Tya => Registers {
            register_a: r.register_y,
            status: update_zero_and_negative_flags(s, r.register_y),
            ..r
        },
        Operation::Sec => Registers { status: s | Flags::CARRY, ..r },
        Operation::Sed => Registers { status: s | Flags::DECIMAL_MODE, ..r },
        Operation::Sei => Registers { status: s | Flags::INTERRUPT_DISABLE, ..r },
        Operation::Clc => Registers { status: s & !Flags::CARRY, ..r },
        Operation::Cld => Registers { status: s & !Flags::DECIMAL_MODE, ..r },
        Operation::Cli => Registers { status: s & !Flags::INTERRUPT_DISABLE, ..r },
        Operation::Clv => Registers { status: s & !Flags::OVERFLOW, ..r },
        Operation::Inx => {
            let x = r.register_x.wrapping_add(1);
            Registers { register_x: x, status: update_zero_and_negative_flags(s, x), ..r }
        },
        Operation::Iny => {
            let y = r.register_y.wrapping_add(1);
            Registers { register_y: y, status: update_zero_and_negative_flags(s, y), ..r }
        },
        Operation::Dex => {
            let x = r.register_x.wrapping_sub(1);
            Registers { register_x: x, status: update_zero_and_negative_flags(s, x), ..r }
        },
        Operation::Dey => {
            let y = r.register_y.wrapping_sub(1);
            Registers { register_y: y, status: update_zero_and_negative_flags(s, y), ..r }
        },
        Operation::AslAcc => {
            let na = (a % 128) * 2;
            let mut f = Flags { bits: s };
            f.set(Flags::CARRY, a >= 128);
            Registers { register_a: na, status: update_zero_and_negative_flags(f.bits, na), ..r }
        },
        Operation::LsrAcc => {
            let na = a / 2;
            let mut f = Flags { bits: s };
            f.set(Flags::CARRY, a % 2 == 1);
            Registers { register_a: na, status: update_zero_and_negative_flags(f.bits, na), ..r }
        },
        Operation::RolAcc => {
            let (na, nc) = rotate_value_left(a, c);
            let mut f = Flags { bits: update_zero_and_negative_flags(s, na) };
            f.set(Flags::CARRY, nc);
            Registers { register_a: na, status: f.bits, ..r }
        },
        Operation::RorAcc => {
            let (na, nc) = rotate_value_right(a, c);
            let mut f = Flags { bits: update_zero_and_negative_flags(s, na) };
            f.set(Flags::CARRY, nc);
            Registers { register_a: na, status: f.bits, ..r }
        },
        _ => r,
    }
}

pub fn store_value(op: Operation, r: Registers) -> (v: u8)
    ensures
        v == store_value_spec(op, r),
{
    match op {
        Operation::Sta => r.register_a,
        Operation::Stx => r.register_x,
        Operation::Sty => r.register_y,
        _ => r.register_a & r.register_x,
    }
}

pub fn is_branch_taken(op: Operation, status: u8) -> (t: bool)
    ensures
        t == branch_taken(op, status),
{
    match op {
        Operation::Bne => !has_flag(status, Flags::ZERO),
        Operation::Beq => has_flag(status, Flags::ZERO),
        Operation::Bvs => has_flag(status, Flags::OVERFLOW),
        Operation::Bvc => !has_flag(status, Flags::OVERFLOW),
        Operation::Bmi => has_flag(status, Flags::NEGATIVE),
        Operation::Bpl => !has_flag(status, Flags::NEGATIVE),
        Operation::Bcs => has_flag(status, Flags::CARRY),
        _ => !has_flag(status, Flags::CARRY),
    }
}

// ---------------------------------------------------------------------------
// The stack and interrupts
// ---------------------------------------------------------------------------

/// The stack lives in page one.
pub open spec fn stack_addr(sp: u8) -> u16 {
    (0x100 + sp) as u16
}

/// Pushes `v` at the stack pointer, then moves the pointer down.
pub open spec fn push_state<B: CpuBusInterface>(st: (Registers, B::State), v: u8) -> (Registers, B::State) {
    (
        Registers { stack_pointer: sub8(st.0.stack_pointer, 1), ..st.0 },
        B::after_write(st.1, stack_addr(st.0.stack_pointer), v),
    )
}

/// Moves the stack pointer up, then reads the byte it points at.
pub open spec fn pop_state<B: CpuBusInterface>(st: (Registers, B::State)) -> (u8, (Registers, B::State)) {
    let sp = add8(st.0.stack_pointer, 1);
    let r = read_byte::<B>(st.1, stack_addr(sp));
    (r.0, (Registers { stack_pointer: sp, ..st.0 }, r.1))
}

/// The status byte an interrupt pushes: B and bit 5 as its mask says.
pub open spec fn pushed_status(status: u8, interrupt: Interrupt) -> u8 {
    set_bits(
        set_bits(status, Flags::BREAK, interrupt.b_flag_mask & 0x10 != 0),
        Flags::BREAK2,
        interrupt.b_flag_mask & 0x20 != 0,
    )
}

/// Pushes the return address and the status, masks interrupts, jumps through the vector.
pub open spec fn interrupt_spec<B: CpuBusInterface>(
    st: (Registers, B::State),
    interrupt: Interrupt,
    ret: u16,
) -> (Registers, B::State) {
    let s1 = push_state::<B>(st, (ret / 256) as u8);
    let s2 = push_state::<B>(s1, (ret % 256) as u8);
    let s3 = push_state::<B>(s2, pushed_status(st.0.status, interrupt));
    let v = read_word::<B>(s3.1, interrupt.vector_addr);
    (
        Registers {
            status: set_bits(s3.0.status, Flags::INTERRUPT_DISABLE, true),
            program_counter: v.0,
            ..s3.0
        },
        v.1,
    )
}

pub fn stack_push<B: CpuBusInterface>(regs: &mut Registers, bus: &mut B, value: u8)
    ensures
        (*final(regs), final(bus).state()) == push_state::<B>((*old(regs), old(bus).state()), value),
{
    let address = CPU_STACK_BASE + regs.stack_pointer as u16;
    bus.cpu_bus_write(address, value);
    regs.stack_pointer = regs.stack_pointer.wrapping_sub(1);
}

pub fn stack_pop<B: CpuBusInterface>(regs: &mut Registers, bus: &mut B) -> (v: u8)
    ensures
        (v, (*final(regs), final(bus).state())) == pop_state::<B>((*old(regs), old(bus).state())),
{
    regs.stack_pointer = regs.stack_pointer.wrapping_add(1);
    bus.cpu_bus_read(CPU_STACK_BASE + regs.stack_pointer as u16)
}

/// Services `int`, returning to `ret` afterwards.
pub fn handle_interrupt<B: CpuBusInterface>(regs: &mut Registers, bus: &mut B, interrupt: Interrupt, ret: u16)
    ensures
        (*final(regs), final(bus).state()) == interrupt_spec::<B>((*old(regs), old(bus).state()), interrupt, ret),
{
    let status = regs.status;
    stack_push(regs, bus, (ret / 256) as u8);
    stack_push(regs, bus, (ret % 256) as u8);
    let mut f = Flags { bits: status };
    f.set(Flags::BREAK, interrupt.b_flag_mask & 0b0001_0000 != 0);
    f.set(Flags::BREAK2, interrupt.b_flag_mask & 0b0010_0000 != 0);
    stack_push(regs, bus, f.bits);
    let mut g = Flags { bits: regs.status };
    g.set(Flags::INTERRUPT_DISABLE, true);
    regs.status = g.bits;
    regs.program_counter = read_u16(bus, interrupt.vector_addr);
}

// ---------------------------------------------------------------------------
// One instruction
// ---------------------------------------------------------------------------

pub open spec fn running<S>(regs: Registers, bus: S, cycles: int, size: u8) -> Step<S> {
    Step { regs, bus, outcome: StepOutcome { cycles: cycles as u8, size, halted: false, error: None } }
}

pub open spec fn stopped<S>(regs: Registers, bus: S, cycles: u8, size: u8, error: Option<CpuError>) -> Step<S> {
    Step { regs, bus, outcome: StepOutcome { cycles, size, halted: true, error } }
}

/// Stack, jump, return, interrupt and halting operations.
pub open spec fn control_spec<B: CpuBusInterface>(
    code: u8,
    info: OpcodeInfo,
    r: Registers,
    operand_pc: u16,
    opd: Operand<B::State>,
    brk_halts: bool,
) -> Step<B::State> {
    let st = (r, opd.bus);
    let cycles = info.cycles as int;
    match info.operation {
        Operation::Pha => {
            let s = push_state::<B>(st, r.register_a);
            running(s.0, s.1, cycles, info.size)
        },
        Operation::Php => {
            // B is pushed set, though the processor's own B is unchanged.
            let s = push_state::<B>(st, r.status | Flags::BREAK);
            running(s.0, s.1, cycles, info.size)
        },
        Operation::Pla => {
            let p = pop_state::<B>(st);
            running(Registers { register_a: p.0, status: zn(p.1.0.status, p.0), ..p.1.0 }, p.1.1, cycles, info.size)
        },
        Operation::Plp => {
            let p = pop_state::<B>(st);
            running(Registers { status: (p.0 & !Flags::BREAK) | Flags::BREAK2, ..p.1.0 }, p.1.1, cycles, info.size)
        },
        Operation::Jmp => running(Registers { program_counter: opd.addr, ..r }, opd.bus, cycles, info.size),
        Operation::Jsr => {
            // The address pushed is that of the last byte of the JSR.
            let ret = sub16(r.program_counter, 1);
            let s1 = push_state::<B>(st, (ret / 256) as u8);
            let s2 = push_state::<B>(s1, (ret % 256) as u8);
            running(Registers { program_counter: opd.addr, ..s2.0 }, s2.1, cycles, info.size)
        },
        Operation::Rts => {
            let lo = pop_state::<B>(st);
            let hi = pop_state::<B>(lo.1);
            running(
                Registers { program_counter: add16(word(lo.0, hi.0), 1), ..hi.1.0 },
                hi.1.1,
                cycles,
                info.size,
            )
        },
        Operation::Rti => {
            let p = pop_state::<B>(st);
            let lo = pop_state::<B>(p.1);
            let hi = pop_state::<B>(lo.1);
            running(
                Registers {
                    status: (p.0 & !Flags::BREAK) | Flags::BREAK2,
                    program_counter: word(lo.0, hi.0),
                    ..hi.1.0
                },
                hi.1.1,
                cycles,
                info.size,
            )
        },
        Operation::Brk => {
            if brk_halts {
                stopped(Registers { program_counter: operand_pc, ..r }, opd.bus, 1, 1, None)
            } else {
                let s = interrupt_spec::<B>(st, super::interrupts::brk_spec(), add16(operand_pc, 1));
                running(s.0, s.1, cycles, info.size)
            }
        },
        Operation::Jam => stopped(r, opd.bus, info.cycles, info.size, Some(CpuError::JamOpcode(code))),
        _ => stopped(r, opd.bus, info.cycles, info.size, Some(CpuError::UnstableOpcode(code))),
    }
}

/// Executes the operation of `info` on a resolved operand; `r` already points past the instruction.
pub open spec fn execute_spec<B: CpuBusInterface>(
    code: u8,
    info: OpcodeInfo,
    r: Registers,
    operand_pc: u16,
    opd: Operand<B::State>,
    brk_halts: bool,
) -> Step<B::State> {
    let op = info.operation;
    let cycles = info.cycles as int;
    let penalty = if info.access_type == AccessType::Read && opd.crossed { 1int } else { 0int };
    if is_read_op(op) {
        let v = read_byte::<B>(opd.bus, opd.addr);
        running(read_op_spec(op, r, v.0), v.1, cycles + penalty, info.size)
    } else if is_rmw_op(op) {
        let v = read_byte::<B>(opd.bus, opd.addr);
        let m = rmw_spec(op, r, v.0);
        running(m.1, B::after_write(v.1, opd.addr, m.0), cycles, info.size)
    } else if is_store_op(op) {
        running(r, B::after_write(opd.bus, opd.addr, store_value_spec(op, r)), cycles, info.size)
    } else if is_implied_op(op) {
        running(implied_spec(op, r), opd.bus, cycles, info.size)
    } else if is_branch_op(op) {
        // A taken branch costs one cycle, and one more when it lands on another page.
        if branch_taken(op, r.status) {
            running(
                Registers { program_counter: opd.addr, ..r },
                opd.bus,
                cycles + 1 + (if opd.crossed { 1int } else { 0int }),
                info.size,
            )
        } else {
            running(r, opd.bus, cycles, info.size)
        }
    } else {
        control_spec::<B>(code, info, r, operand_pc, opd, brk_halts)
    }
}

/// Fetches, decodes and executes the instruction at the program counter.
/// With `brk_halts`, BRK stops the processor instead of raising the software interrupt.
#[verifier::opaque]
pub open spec fn step_spec<B: CpuBusInterface>(r: Registers, bus: B::State, brk_halts: bool) -> Step<B::State> {
    let fetch = read_byte::<B>(bus, r.program_counter);
    let info = opcode_table(fetch.0);
    let operand_pc = add16(r.program_counter, 1);
    let opd = resolve_spec::<B>(info.mode, r.register_x, r.register_y, operand_pc, fetch.1);
    execute_spec::<B>(
        fetch.0,
        info,
        Registers { program_counter: add16(r.program_counter, info.size as u16), ..r },
        operand_pc,
        opd,
        brk_halts,
    )
}

pub proof fn lemma_opcode_bounds(code: u8)
    ensures
        opcode_table(code).cycles <= 11,
        opcode_table(code).size <= 3,
{
}

fn execute_control<B: CpuBusInterface>(
    code: u8,
    info: OpcodeInfo,
    regs: &mut Registers,
    bus: &mut B,
    operand_pc: u16,
    addr: u16,
    crossed: bool,
    brk_halts: bool,
) -> (out: StepOutcome)
    ensures
        ({
            let st = control_spec::<B>(code, info, *old(regs), operand_pc, Operand { addr, crossed, bus: old(bus).state() }, brk_halts);
            st.regs == *final(regs) && st.bus == final(bus).state() && st.outcome == out
        }),
{
    let running = StepOutcome { cycles: info.cycles, size: info.size, halted: false, error: None };
    match info.operation {
        Operation::Pha => {
            let a = regs.register_a;
            stack_push(regs, bus, a);
            running
        },
        Operation::Php => {
            let pushed = regs.status | Flags::BREAK;
            stack_push(regs, bus, pushed);
            running
        },
        Operation::Pla => {
            let v = stack_pop(regs, bus);
            regs.register_a = v;
            regs.status = update_zero_and_negative_flags(regs.status, v);
            running
        },
        Operation::Plp => {
            let v = stack_pop(regs, bus);
            regs.status = (v & !Flags::BREAK) | Flags::BREAK2;
            running
        },
        Operation::Jmp => {
            regs.program_counter = addr;
            running
        },
        Operation::Jsr => {
            let ret = regs.program_counter.wrapping_sub(1);
            stack_push(regs, bus, (ret / 256) as u8);
            stack_push(regs, bus, (ret % 256) as u8);
            regs.program_counter = addr;
            running
        },
        Operation::Rts => {
            let lo = stack_pop(regs, bus);
            let hi = stack_pop(regs, bus);
            regs.program_counter = word_of(lo, hi).wrapping_add(1);
            running
        },
        Operation::Rti => {
            let p = stack_pop(regs, bus);
            let lo = stack_pop(regs, bus);
            let hi = stack_pop(regs, bus);
            regs.status = (p & !Flags::BREAK) | Flags::BREAK2;
            regs.program_counter = word_of(lo, hi);
            running
        },
        Operation::Brk => {
            if brk_halts {
                regs.program_counter = operand_pc;
                StepOutcome { cycles: 1, size: 1, halted: true, error: None }
            } else {
                handle_interrupt(regs, bus, super::interrupts::brk(), operand_pc.wrapping_add(1));
                running
            }
        },
        Operation::Jam => StepOutcome {
            cycles: info.cycles,
            size: info.size,
            halted: true,
            error: Some(CpuError::JamOpcode(code)),
        },
        _ => StepOutcome {
            cycles: info.cycles,
            size: info.size,
            halted: true,
            error: Some(CpuError::UnstableOpcode(code)),
        },
    }
}

fn execute<B: CpuBusInterface>(
    code: u8,
    info: OpcodeInfo,
    regs: &mut Registers,
    bus: &mut B,
    operand_pc: u16,
    addr: u16,
    crossed: bool,
    brk_halts: bool,
) -> (out: StepOutcome)
    requires
        info.cycles <= 11,
    ensures
        ({
            let st = execute_spec::<B>(code, info, *old(regs), operand_pc, Operand { addr, crossed, bus: old(bus).state() }, brk_halts);
            st.regs == *final(regs) && st.bus == final(bus).state() && st.outcome == out
        }),
{
    let op = info.operation;
    if is_read_operation(op) {
        let v = bus.cpu_bus_read(addr);
        *regs = apply_read_op(op, *regs, v);
        let penalty: u8 = if info.access_type == AccessType::Read && crossed { 1 } else { 0 };
        StepOutcome { cycles: info.cycles + penalty, size: info.size, halted: false, error: None }
    } else if is_rmw_operation(op) {
        let v = bus.cpu_bus_read(addr);
        let (nv, nr) = apply_rmw_op(op, *regs, v);
        bus.cpu_bus_write(addr, nv);
        *regs = nr;
        StepOutcome { cycles: info.cycles, size: info.size, halted: false, error: None }
    } else if is_store_operation(op) {
        let v = store_value(op, *regs);
        bus.cpu_bus_write(addr, v);
        StepOutcome { cycles: info.cycles, size: info.size, halted: false, error: None }
    } else if is_implied_operation(op) {
        *regs = apply_implied_op(op, *regs);
        StepOutcome { cycles: info.cycles, size: info.size, halted: false, error: None }
    } else if is_branch_operation(op) {
        if is_branch_taken(op, regs.status) {
            regs.program_counter = addr;
            let extra: u8 = if crossed { 2 } else { 1 };
            StepOutcome { cycles: info.cycles + extra, size: info.size, halted: false, error: None }
        } else {
            StepOutcome { cycles: info.cycles, size: info.size, halted: false, error: None }
        }
    } else {
        execute_control(code, info, regs, bus, operand_pc, addr, crossed, brk_halts)
    }
}

/// Fetches, decodes and executes the instruction at the program counter.
pub fn execute_instruction<B: CpuBusInterface>(regs: &mut Registers, bus: &mut B, brk_halts: bool) -> (out: StepOutcome)
    ensures
        ({
            let st = step_spec::<B>(*old(regs), old(bus).state(), brk_halts);
            st.regs == *final(regs) && st.bus == final(bus).state() && st.outcome == out
        }),
{
    reveal(step_spec);
    let pc = regs.program_counter;
    let code = bus.cpu_bus_read(pc);
    let opcode = lookup(code);
    proof {
        lemma_opcode_bounds(code);
    }
    let info = OpcodeInfo {
        operation: opcode.operation,
        mode: opcode.mode,
        access_type: opcode.access_type,
        size: opcode.size,
        cycles: opcode.cycles,
    };
    let operand_pc = pc.wrapping_add(1);
    let (addr, crossed) = resolve(info.mode, regs.register_x, regs.register_y, operand_pc, bus);
    regs.program_counter = pc.wrapping_add(info.size as u16);
    execute(code, info, regs, bus, operand_pc, addr, crossed, brk_halts)
}

} // verus!
