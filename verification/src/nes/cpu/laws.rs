//! What the 6502's operations compute, stated from the instruction set's definition: the
//! result as arithmetic or bitwise logic on the operands, and the flags as facts about the
//! result (ZERO: it is 0; NEGATIVE: its bit 7; CARRY: an unsigned carry or no borrow;
//! OVERFLOW: the signed result does not fit). Each law fixes the behaviour of the
//! operation's executable function through that function's contract.
use vstd::prelude::*;
use super::instruction_handlers::{
    branch_taken, implied_spec, read_op_spec, rmw_spec, store_value_spec, zn, Registers,
};
use super::opcodes::Operation;
use super::set_bits;

verus! {

/// Bit `mask` of `status` is set.
pub open spec fn bit_set(status: u8, mask: u8) -> bool {
    status & mask != 0
}

/// `v` read as a two's-complement signed byte.
pub open spec fn signed(v: u8) -> int {
    if v >= 128 { v - 256 } else { v as int }
}

/// The status bits other than ZERO and NEGATIVE agree.
pub open spec fn same_except_zn(a: u8, b: u8) -> bool {
    a & 0x7D == b & 0x7D
}

/// Only the program counter-independent registers named differ: X, Y, S and PC agree.
pub open spec fn xy_sp_pc_same(a: Registers, b: Registers) -> bool {
    a.register_x == b.register_x && a.register_y == b.register_y && a.stack_pointer == b.stack_pointer
        && a.program_counter == b.program_counter
}

/// ZERO reports a zero result, NEGATIVE copies its bit 7, and the other flags stay.
pub proof fn lemma_zn_flags(s: u8, v: u8)
    ensures
        bit_set(zn(s, v), 0x02) == (v == 0),
        bit_set(zn(s, v), 0x80) == (v >= 128),
        same_except_zn(zn(s, v), s),
{
    let z = v == 0;
    let n = v >= 128;
    let t: u8 = if z { s | 2 } else { s & !2u8 };
    let u: u8 = if n { t | 128 } else { t & !128u8 };
    assert(zn(s, v) == u);
    assert((u & 2 != 0) == z && (u & 128 != 0) == n && u & 0x7D == s & 0x7D) by (bit_vector)
        requires
            t == (if z { s | 2 } else { s & !2u8 }),
            u == (if n { t | 128 } else { t & !128u8 }),
            n == (v >= 128),
            z == (v == 0),
    ;
}

/// AND, ORA and EOR combine A with the operand bit by bit (and, or, exclusive or), leave
/// X, Y, S and PC alone, and set ZERO and NEGATIVE from the new A. Exclusive or undoes
/// itself, and of a value with itself it gives zero.
pub proof fn lemma_logic_ops(r: Registers, v: u8)
    ensures
        read_op_spec(Operation::And, r, v).register_a == r.register_a & v,
        read_op_spec(Operation::Ora, r, v).register_a == r.register_a | v,
        read_op_spec(Operation::Eor, r, v).register_a == r.register_a ^ v,
        read_op_spec(Operation::Eor, read_op_spec(Operation::Eor, r, v), v).register_a == r.register_a,
        read_op_spec(Operation::Eor, r, r.register_a).register_a == 0,
        bit_set(read_op_spec(Operation::Eor, r, r.register_a).status, 0x02),
        forall|op: Operation| #![trigger read_op_spec(op, r, v)]
            op == Operation::And || op == Operation::Ora || op == Operation::Eor ==> {
                let o = read_op_spec(op, r, v);
                &&& bit_set(o.status, 0x02) == (o.register_a == 0)
                &&& bit_set(o.status, 0x80) == (o.register_a >= 128)
                &&& same_except_zn(o.status, r.status)
                &&& xy_sp_pc_same(o, r)
            },
{
    let a = r.register_a;
    lemma_zn_flags(r.status, a & v);
    lemma_zn_flags(r.status, a | v);
    lemma_zn_flags(r.status, a ^ v);
    lemma_zn_flags(r.status, a ^ a);
    let e = read_op_spec(Operation::Eor, r, v);
    assert((a ^ v) ^ v == a && a ^ a == 0) by (bit_vector);
    assert(read_op_spec(Operation::Eor, e, v).register_a == e.register_a ^ v);
}

/// LDA, LDX and LDY copy the operand into their register and nothing else, with ZERO
/// and NEGATIVE describing it.
pub proof fn lemma_loads(r: Registers, v: u8)
    ensures
        ({
            let a = read_op_spec(Operation::Lda, r, v);
            &&& a.register_a == v && xy_sp_pc_same(a, r)
            &&& bit_set(a.status, 0x02) == (v == 0) && bit_set(a.status, 0x80) == (v >= 128)
            &&& same_except_zn(a.status, r.status)
        }),
        ({
            let x = read_op_spec(Operation::Ldx, r, v);
            &&& x.register_x == v && x.register_a == r.register_a && x.register_y == r.register_y
            &&& bit_set(x.status, 0x02) == (v == 0) && bit_set(x.status, 0x80) == (v >= 128)
        }),
        ({
            let y = read_op_spec(Operation::Ldy, r, v);
            &&& y.register_y == v && y.register_a == r.register_a && y.register_x == r.register_x
            &&& bit_set(y.status, 0x02) == (v == 0) && bit_set(y.status, 0x80) == (v >= 128)
        }),
{
    lemma_zn_flags(r.status, v);
}

/// ADC adds the operand and the carry to A modulo 256; CARRY reports an unsigned result
/// above 255, OVERFLOW a signed result outside -128..127, and ZERO and NEGATIVE describe
/// the new A.
#[verifier::spinoff_prover]
#[verifier::rlimit(60)]
pub proof fn lemma_adc(r: Registers, v: u8)
    ensures
        ({
            let c: int = if bit_set(r.status, 0x01) { 1 } else { 0 };
            let o = read_op_spec(Operation::Adc, r, v);
            &&& o.register_a == (r.register_a + v + c) % 256
            &&& bit_set(o.status, 0x01) == (r.register_a + v + c > 255)
            &&& bit_set(o.status, 0x40) == !(-128 <= signed(r.register_a) + signed(v) + c <= 127)
            &&& bit_set(o.status, 0x02) == (o.register_a == 0)
            &&& bit_set(o.status, 0x80) == (o.register_a >= 128)
            &&& xy_sp_pc_same(o, r)
        }),
{
    let s = r.status;
    let a = r.register_a;
    let carry_in = s & 1 == 1;
    assert((s & 1 == 1) == (s & 1 != 0)) by (bit_vector);
    let c: int = if carry_in { 1 } else { 0 };
    let sum = a + v + c;
    let res = (sum % 256) as u8;
    let ov = ((a >= 128) == (v >= 128)) && ((res >= 128) != (a >= 128));
    let cy = sum > 255;
    let t1: u8 = if ov { s | 64 } else { s & !64u8 };
    let t2: u8 = if res >= 128 { t1 | 128 } else { t1 & !128u8 };
    let t3: u8 = if res == 0 { t2 | 2 } else { t2 & !2u8 };
    let t4: u8 = if cy { t3 | 1 } else { t3 & !1u8 };
    assert(read_op_spec(Operation::Adc, r, v).status == t4);
    assert((t4 & 1 != 0) == cy && (t4 & 64 != 0) == ov && (t4 & 2 != 0) == (res == 0)
        && (t4 & 128 != 0) == (res >= 128)) by (bit_vector)
        requires
            t1 == (if ov { s | 64 } else { s & !64u8 }),
            t2 == (if res >= 128 { t1 | 128 } else { t1 & !128u8 }),
            t3 == (if res == 0 { t2 | 2 } else { t2 & !2u8 }),
            t4 == (if cy { t3 | 1 } else { t3 & !1u8 }),
    ;
    // The signed sum leaves -128..127 exactly when both inputs share a sign the result lacks.
    assert(ov == !(-128 <= signed(a) + signed(v) + c <= 127));
}

/// CMP, CPX and CPY compare a register with the operand: CARRY when the register is at
/// least the operand, ZERO when they are equal, NEGATIVE from bit 7 of their difference
/// modulo 256; no register changes.
#[verifier::spinoff_prover]
#[verifier::rlimit(60)]
pub proof fn lemma_compare(r: Registers, v: u8)
    ensures
        forall|op: Operation| #![trigger read_op_spec(op, r, v)]
            op == Operation::Cmp || op == Operation::Cpx || op == Operation::Cpy ==> {
                let reg = if op == Operation::Cmp {
                    r.register_a
                } else if op == Operation::Cpx {
                    r.register_x
                } else {
                    r.register_y
                };
                let o = read_op_spec(op, r, v);
                &&& bit_set(o.status, 0x01) == (reg >= v)
                &&& bit_set(o.status, 0x02) == (reg == v)
                &&& bit_set(o.status, 0x80) == ((reg - v + 256) % 256 >= 128)
                &&& o.register_a == r.register_a && xy_sp_pc_same(o, r)
            },
{
    assert forall|op: Operation| #![trigger read_op_spec(op, r, v)]
        op == Operation::Cmp || op == Operation::Cpx || op == Operation::Cpy implies {
            let reg = if op == Operation::Cmp {
                r.register_a
            } else if op == Operation::Cpx {
                r.register_x
            } else {
                r.register_y
            };
            let o = read_op_spec(op, r, v);
            &&& bit_set(o.status, 0x01) == (reg >= v)
            &&& bit_set(o.status, 0x02) == (reg == v)
            &&& bit_set(o.status, 0x80) == ((reg - v + 256) % 256 >= 128)
            &&& o.register_a == r.register_a && xy_sp_pc_same(o, r)
        } by {
        let reg = if op == Operation::Cmp {
            r.register_a
        } else if op == Operation::Cpx {
            r.register_x
        } else {
            r.register_y
        };
        let s = r.status;
        let cy = reg >= v;
        let t: u8 = if cy { s | 1 } else { s & !1u8 };
        let d: u8 = if reg - v < 0 { (reg - v + 256) as u8 } else { (reg - v) as u8 };
        lemma_zn_flags(t, d);
        assert((t & 1 != 0) == cy) by (bit_vector)
            requires
                t == (if cy { s | 1 } else { s & !1u8 }),
        ;
        let z = zn(t, d);
        assert(z & 0x7D == t & 0x7D ==> ((z & 1 != 0) == (t & 1 != 0))) by (bit_vector);
    }
}

/// Setting one status bit to `b` makes it `b` and leaves the other bits.
pub proof fn lemma_set_bit(s: u8, m: u8, b: bool)
    requires
        m == 1 || m == 2 || m == 4 || m == 8 || m == 16 || m == 32 || m == 64 || m == 128,
    ensures
        bit_set(set_bits(s, m, b), m) == b,
        set_bits(s, m, b) & !m == s & !m,
{
    let t: u8 = if b { s | m } else { s & !m };
    assert(set_bits(s, m, b) == t);
    assert((t & m != 0) == b && t & !m == s & !m) by (bit_vector)
        requires
            t == (if b { s | m } else { s & !m }),
            m == 1 || m == 2 || m == 4 || m == 8 || m == 16 || m == 32 || m == 64 || m == 128,
    ;
}

/// The result of a shift or rotate with the carry: ZERO and NEGATIVE from the result,
/// CARRY as given, the other flags unchanged.
pub open spec fn shift_flags(o: u8, s: u8, res: u8, carry: bool) -> bool {
    &&& bit_set(o, 0x01) == carry
    &&& bit_set(o, 0x02) == (res == 0)
    &&& bit_set(o, 0x80) == (res >= 128)
    &&& o & 0x7C == s & 0x7C
}

proof fn lemma_zn_then_carry(s: u8, res: u8, carry: bool)
    ensures
        shift_flags(zn(set_bits(s, 1, carry), res), s, res, carry),
        shift_flags(set_bits(zn(s, res), 1, carry), s, res, carry),
{
    let t = set_bits(s, 1, carry);
    lemma_set_bit(s, 1, carry);
    lemma_zn_flags(t, res);
    let u = zn(t, res);
    assert((u & 0x7D == t & 0x7D && t & !1u8 == s & !1u8 && ((t & 1 != 0) == carry))
        ==> ((u & 1 != 0) == carry && u & 0x7C == s & 0x7C)) by (bit_vector);
    let w = zn(s, res);
    lemma_zn_flags(s, res);
    let x = set_bits(w, 1, carry);
    lemma_set_bit(w, 1, carry);
    assert((x & !1u8 == w & !1u8 && w & 0x7D == s & 0x7D && ((w & 2 != 0) == (res == 0))
        && ((w & 128 != 0) == (res >= 128)))
        ==> ((x & 2 != 0) == (res == 0) && (x & 128 != 0) == (res >= 128) && x & 0x7C == s & 0x7C)) by (bit_vector);
}

/// The shifts on a memory byte `v`: ASL doubles it modulo 256 with bit 7 going to CARRY,
/// LSR halves it with bit 0 going to CARRY. ZERO and NEGATIVE describe the new byte; the
/// registers do not change.
pub proof fn lemma_shifts(r: Registers, v: u8)
    ensures
        ({
            let asl = rmw_spec(Operation::Asl, r, v);
            let lsr = rmw_spec(Operation::Lsr, r, v);
            &&& asl.0 == (2 * v) % 256 && shift_flags(asl.1.status, r.status, asl.0, v >= 128)
            &&& lsr.0 == v / 2 && shift_flags(lsr.1.status, r.status, lsr.0, v % 2 == 1)
            &&& asl.1.register_a == r.register_a && xy_sp_pc_same(asl.1, r)
            &&& lsr.1.register_a == r.register_a && xy_sp_pc_same(lsr.1, r)
        }),
{
    lemma_zn_then_carry(r.status, ((v % 128) * 2) as u8, v >= 128);
    lemma_zn_then_carry(r.status, v / 2, v % 2 == 1);
}

/// The rotates on a memory byte `v` through the carry `c`: ROL gives `2v + c` modulo 256
/// with bit 7 going to CARRY, ROR gives `v / 2 + 128c` with bit 0 going to CARRY. ZERO
/// and NEGATIVE describe the new byte; the registers do not change.
#[verifier::spinoff_prover]
#[verifier::rlimit(60)]
pub proof fn lemma_rotates(r: Registers, v: u8)
    ensures
        ({
            let c: int = if bit_set(r.status, 0x01) { 1 } else { 0 };
            let rol = rmw_spec(Operation::Rol, r, v);
            let ror = rmw_spec(Operation::Ror, r, v);
            &&& rol.0 == (2 * v + c) % 256 && shift_flags(rol.1.status, r.status, rol.0, v >= 128)
            &&& ror.0 == v / 2 + 128 * c && shift_flags(ror.1.status, r.status, ror.0, v % 2 == 1)
            &&& rol.1.register_a == r.register_a && xy_sp_pc_same(rol.1, r)
            &&& ror.1.register_a == r.register_a && xy_sp_pc_same(ror.1, r)
        }),
{
    let s = r.status;
    assert((s & 1 == 1) == (s & 1 != 0)) by (bit_vector);
    let c = s & 1 == 1;
    lemma_zn_then_carry(s, (((v % 128) * 2) + (if c { 1int } else { 0int })) as u8, v >= 128);
    lemma_zn_then_carry(s, (v / 2 + (if c { 128int } else { 0int })) as u8, v % 2 == 1);
}

/// INC and DEC add and subtract one modulo 256; ZERO and NEGATIVE describe the new byte,
/// the other flags and the registers do not change.
pub proof fn lemma_increments(r: Registers, v: u8)
    ensures
        ({
            let inc = rmw_spec(Operation::Inc, r, v);
            let dec = rmw_spec(Operation::Dec, r, v);
            &&& inc.0 == (v + 1) % 256 && bit_set(inc.1.status, 0x02) == (inc.0 == 0)
                && bit_set(inc.1.status, 0x80) == (inc.0 >= 128) && same_except_zn(inc.1.status, r.status)
            &&& dec.0 == (v + 255) % 256 && bit_set(dec.1.status, 0x02) == (dec.0 == 0)
                && bit_set(dec.1.status, 0x80) == (dec.0 >= 128) && same_except_zn(dec.1.status, r.status)
            &&& inc.1.register_a == r.register_a && xy_sp_pc_same(inc.1, r)
            &&& dec.1.register_a == r.register_a && xy_sp_pc_same(dec.1, r)
        }),
{
    let i: u8 = if v + 1 > 255 { (v + 1 - 256) as u8 } else { (v + 1) as u8 };
    let d: u8 = if v - 1 < 0 { (v - 1 + 256) as u8 } else { (v - 1) as u8 };
    lemma_zn_flags(r.status, i);
    lemma_zn_flags(r.status, d);
}

/// Register transfers copy the source into the destination (ZERO and NEGATIVE from the
/// value, except TXS); INX, INY, DEX, DEY step by one modulo 256; the flag instructions
/// set or clear exactly their flag; the accumulator shifts and rotates act on A as the
/// memory ones act on a byte.
pub proof fn lemma_implied(r: Registers)
    ensures
        implied_spec(Operation::Tax, r).register_x == r.register_a,
        implied_spec(Operation::Tay, r).register_y == r.register_a,
        implied_spec(Operation::Txa, r).register_a == r.register_x,
        implied_spec(Operation::Tya, r).register_a == r.register_y,
        implied_spec(Operation::Tsx, r).register_x == r.stack_pointer,
        implied_spec(Operation::Txs, r) == (Registers { stack_pointer: r.register_x, ..r }),
        bit_set(implied_spec(Operation::Tax, r).status, 0x02) == (r.register_a == 0),
        bit_set(implied_spec(Operation::Tax, r).status, 0x80) == (r.register_a >= 128),
        bit_set(implied_spec(Operation::Txa, r).status, 0x02) == (r.register_x == 0),
        bit_set(implied_spec(Operation::Tya, r).status, 0x80) == (r.register_y >= 128),
        implied_spec(Operation::Inx, r).register_x == (r.register_x + 1) % 256,
        implied_spec(Operation::Iny, r).register_y == (r.register_y + 1) % 256,
        implied_spec(Operation::Dex, r).register_x == (r.register_x + 255) % 256,
        implied_spec(Operation::Dey, r).register_y == (r.register_y + 255) % 256,
        bit_set(implied_spec(Operation::Dex, r).status, 0x02) == (r.register_x == 1),
        bit_set(implied_spec(Operation::Sec, r).status, 0x01),
        !bit_set(implied_spec(Operation::Clc, r).status, 0x01),
        bit_set(implied_spec(Operation::Sed, r).status, 0x08),
        !bit_set(implied_spec(Operation::Cld, r).status, 0x08),
        bit_set(implied_spec(Operation::Sei, r).status, 0x04),
        !bit_set(implied_spec(Operation::Cli, r).status, 0x04),
        !bit_set(implied_spec(Operation::Clv, r).status, 0x40),
        implied_spec(Operation::Sec, r).status & 0xFE == r.status & 0xFE,
        implied_spec(Operation::Clc, r).status & 0xFE == r.status & 0xFE,
        implied_spec(Operation::Sed, r).status & 0xF7 == r.status & 0xF7,
        implied_spec(Operation::Cld, r).status & 0xF7 == r.status & 0xF7,
        implied_spec(Operation::Sei, r).status & 0xFB == r.status & 0xFB,
        implied_spec(Operation::Cli, r).status & 0xFB == r.status & 0xFB,
        implied_spec(Operation::Clv, r).status & 0xBF == r.status & 0xBF,
        implied_spec(Operation::AslAcc, r).register_a == rmw_spec(Operation::Asl, r, r.register_a).0,
        implied_spec(Operation::AslAcc, r).status == rmw_spec(Operation::Asl, r, r.register_a).1.status,
        implied_spec(Operation::LsrAcc, r).register_a == rmw_spec(Operation::Lsr, r, r.register_a).0,
        implied_spec(Operation::LsrAcc, r).status == rmw_spec(Operation::Lsr, r, r.register_a).1.status,
        implied_spec(Operation::RolAcc, r).register_a == rmw_spec(Operation::Rol, r, r.register_a).0,
        implied_spec(Operation::RolAcc, r).status == rmw_spec(Operation::Rol, r, r.register_a).1.status,
        implied_spec(Operation::RorAcc, r).register_a == rmw_spec(Operation::Ror, r, r.register_a).0,
        implied_spec(Operation::RorAcc, r).status == rmw_spec(Operation::Ror, r, r.register_a).1.status,
        implied_spec(Operation::Nop, r) == r,
{
    let s = r.status;
    lemma_zn_flags(s, r.register_a);
    lemma_zn_flags(s, r.register_x);
    lemma_zn_flags(s, r.register_y);
    let dx: u8 = if r.register_x - 1 < 0 { (r.register_x - 1 + 256) as u8 } else { (r.register_x - 1) as u8 };
    lemma_zn_flags(s, dx);
    assert(
        (bit_set(s | 1, 1) && (s | 1) & 0xFE == s & 0xFE) &&
        (!bit_set(s & !1u8, 1) && (s & !1u8) & 0xFE == s & 0xFE) &&
        (bit_set(s | 8, 8) && (s | 8) & 0xF7 == s & 0xF7) &&
        (!bit_set(s & !8u8, 8) && (s & !8u8) & 0xF7 == s & 0xF7) &&
        (bit_set(s | 4, 4) && (s | 4) & 0xFB == s & 0xFB) &&
        (!bit_set(s & !4u8, 4) && (s & !4u8) & 0xFB == s & 0xFB) &&
        (!bit_set(s & !64u8, 64) && (s & !64u8) & 0xBF == s & 0xBF)
    ) by (bit_vector);
}

/// BIT copies bits 7 and 6 of the operand to NEGATIVE and OVERFLOW and sets ZERO when A
/// and the operand share no set bit; the registers do not change.
pub proof fn lemma_bit(r: Registers, v: u8)
    ensures
        ({
            let o = read_op_spec(Operation::Bit, r, v);
            &&& bit_set(o.status, 0x80) == (v >= 128)
            &&& bit_set(o.status, 0x40) == (v & 0x40 != 0)
            &&& bit_set(o.status, 0x02) == (r.register_a & v == 0)
            &&& o.status & 0x3D == r.status & 0x3D
            &&& o.register_a == r.register_a && xy_sp_pc_same(o, r)
        }),
{
    let s = r.status;
    let n = v >= 128;
    let ov = v & 0x40 != 0;
    let z = v & r.register_a == 0;
    let a = r.register_a;
    assert((v & a == 0) == (a & v == 0)) by (bit_vector);
    let t1 = set_bits(s, 128, n);
    let t2 = set_bits(t1, 64, ov);
    let t3 = set_bits(t2, 2, z);
    lemma_set_bit(s, 128, n);
    lemma_set_bit(t1, 64, ov);
    lemma_set_bit(t2, 2, z);
    assert((t1 & !128u8 == s & !128u8 && t2 & !64u8 == t1 & !64u8 && t3 & !2u8 == t2 & !2u8
        && ((t1 & 128 != 0) == n) && ((t2 & 64 != 0) == ov))
        ==> ((t3 & 128 != 0) == n && (t3 & 64 != 0) == ov && t3 & 0x3D == s & 0x3D)) by (bit_vector);
}

/// Each branch tests one flag: BNE/BEQ ZERO, BVC/BVS OVERFLOW, BPL/BMI NEGATIVE,
/// BCC/BCS CARRY, taken when the flag is clear or set respectively.
pub proof fn lemma_branch_conditions(status: u8)
    ensures
        branch_taken(Operation::Bne, status) == !bit_set(status, 0x02),
        branch_taken(Operation::Beq, status) == bit_set(status, 0x02),
        branch_taken(Operation::Bvc, status) == !bit_set(status, 0x40),
        branch_taken(Operation::Bvs, status) == bit_set(status, 0x40),
        branch_taken(Operation::Bpl, status) == !bit_set(status, 0x80),
        branch_taken(Operation::Bmi, status) == bit_set(status, 0x80),
        branch_taken(Operation::Bcc, status) == !bit_set(status, 0x01),
        branch_taken(Operation::Bcs, status) == bit_set(status, 0x01),
{
    assert(
        ((status & 2 == 2) == (status & 2 != 0)) &&
        ((status & 64 == 64) == (status & 64 != 0)) &&
        ((status & 128 == 128) == (status & 128 != 0)) &&
        ((status & 1 == 1) == (status & 1 != 0))
    ) by (bit_vector);
}

/// STA, STX and STY store their register; SAX stores A AND X.
pub proof fn lemma_stores(r: Registers)
    ensures
        store_value_spec(Operation::Sta, r) == r.register_a,
        store_value_spec(Operation::Stx, r) == r.register_x,
        store_value_spec(Operation::Sty, r) == r.register_y,
        store_value_spec(Operation::Sax, r) == r.register_a & r.register_x,
{
}

/// SBC subtracts the operand and the borrow (the clear carry) from A modulo 256; CARRY
/// is set exactly when no borrow was needed, OVERFLOW when the signed difference leaves
/// -128..127, and ZERO and NEGATIVE describe the new A. The undocumented USBC does the
/// same.
#[verifier::spinoff_prover]
#[verifier::rlimit(60)]
pub proof fn lemma_sbc(r: Registers, v: u8)
    ensures
        ({
            let b: int = if bit_set(r.status, 0x01) { 0 } else { 1 };
            let o = read_op_spec(Operation::Sbc, r, v);
            &&& o.register_a == (r.register_a - v - b + 512) % 256
            &&& bit_set(o.status, 0x01) == (r.register_a - v - b >= 0)
            &&& bit_set(o.status, 0x40) == !(-128 <= signed(r.register_a) - signed(v) - b <= 127)
            &&& bit_set(o.status, 0x02) == (o.register_a == 0)
            &&& bit_set(o.status, 0x80) == (o.register_a >= 128)
            &&& xy_sp_pc_same(o, r)
            &&& read_op_spec(Operation::Usbc, r, v) == o
        }),
{
    let w = (255 - v) as u8;
    lemma_adc(r, w);
    let a = r.register_a;
    let b: int = if bit_set(r.status, 0x01) { 0 } else { 1 };
    let c: int = 1 - b;
    assert(w == 255 - v);
    assert(a + w + c == a - v - b + 256);
    assert((a + w + c) % 256 == (a - v - b + 512) % 256);
    assert((a + w + c > 255) == (a - v - b >= 0));
    assert(signed(w) == -signed(v) - 1);
    assert(signed(a) + signed(w) + c == signed(a) - signed(v) - b);
    assert(read_op_spec(Operation::Sbc, r, v) == read_op_spec(Operation::Adc, r, w));
}

proof fn lemma_carry_bit(s: u8)
    ensures
        (s & 1 == 1) == bit_set(s, 0x01),
{
    assert((s & 1 == 1) == (s & 1 != 0)) by (bit_vector);
}

/// Setting ZERO and NEGATIVE leaves CARRY as it was.
proof fn lemma_zn_keeps_carry(s: u8, v: u8)
    ensures
        bit_set(zn(s, v), 0x01) == bit_set(s, 0x01),
{
    lemma_zn_flags(s, v);
    let z = zn(s, v);
    assert(z & 0x7D == s & 0x7D ==> ((z & 1 != 0) == (s & 1 != 0))) by (bit_vector);
}

/// The undocumented read operations: LAX loads A and X; ANC ands A with the operand and
/// copies bit 7 of the result to CARRY; ALR ands and then halves A, the low bit going to
/// CARRY; SBX sets X to (A AND X) minus the operand modulo 256, CARRY meaning no borrow;
/// LAS loads A, X and S with the operand AND S. ZERO and NEGATIVE describe the register
/// written last.
#[verifier::spinoff_prover]
#[verifier::rlimit(60)]
pub proof fn lemma_unofficial_reads(r: Registers, v: u8)
    ensures
        ({
            let lax = read_op_spec(Operation::Lax, r, v);
            &&& lax.register_a == v && lax.register_x == v
            &&& bit_set(lax.status, 0x02) == (v == 0) && bit_set(lax.status, 0x80) == (v >= 128)
        }),
        ({
            let anc = read_op_spec(Operation::Anc, r, v);
            let a = r.register_a & v;
            &&& anc.register_a == a && shift_flags(anc.status, r.status, a, a >= 128)
        }),
        ({
            let alr = read_op_spec(Operation::Alr, r, v);
            let a = r.register_a & v;
            &&& alr.register_a == a / 2
            &&& bit_set(alr.status, 0x01) == (a % 2 == 1)
            &&& bit_set(alr.status, 0x02) == (a / 2 == 0) && !bit_set(alr.status, 0x80)
        }),
        ({
            let sbx = read_op_spec(Operation::Sbx, r, v);
            let a = r.register_a & r.register_x;
            &&& sbx.register_x == (a - v + 256) % 256 && sbx.register_a == r.register_a
            &&& shift_flags(sbx.status, r.status, sbx.register_x, a >= v)
        }),
        ({
            let las = read_op_spec(Operation::Las, r, v);
            let m = v & r.stack_pointer;
            &&& las.register_a == m && las.register_x == m && las.stack_pointer == m
            &&& bit_set(las.status, 0x02) == (m == 0) && bit_set(las.status, 0x80) == (m >= 128)
        }),
{
    let s = r.status;
    lemma_zn_flags(s, v);
    lemma_zn_flags(zn(s, v), v);
    let a = r.register_a & v;
    lemma_zn_then_carry(s, a, a >= 128);
    lemma_zn_then_carry(zn(s, a), a / 2, a % 2 == 1);
    let ax = r.register_a & r.register_x;
    let d: u8 = if ax - v < 0 { (ax - v + 256) as u8 } else { (ax - v) as u8 };
    lemma_zn_then_carry(s, d, ax >= v);
    lemma_zn_flags(s, v & r.stack_pointer);
}

/// DCP decrements the byte and compares A with the result: CARRY when A is at least it,
/// ZERO when they are equal.
#[verifier::spinoff_prover]
#[verifier::rlimit(60)]
pub proof fn lemma_dcp(r: Registers, v: u8)
    ensures
        ({
            let dcp = rmw_spec(Operation::Dcp, r, v);
            &&& dcp.0 == (v + 255) % 256 && dcp.1.register_a == r.register_a
            &&& bit_set(dcp.1.status, 0x01) == (r.register_a >= dcp.0)
            &&& bit_set(dcp.1.status, 0x02) == (r.register_a == dcp.0)
            &&& xy_sp_pc_same(dcp.1, r)
        }),
{
    let s = r.status;
    let nd: u8 = if v - 1 < 0 { (v - 1 + 256) as u8 } else { (v - 1) as u8 };
    let dd: u8 = if r.register_a - nd < 0 { (r.register_a - nd + 256) as u8 } else { (r.register_a - nd) as u8 };
    lemma_zn_then_carry(zn(s, nd), dd, r.register_a >= nd);
    let o = rmw_spec(Operation::Dcp, r, v);
    assert(o.0 == nd);
    assert(o.1.status == zn(set_bits(zn(s, nd), 1, r.register_a >= nd), dd));
}

/// ISC increments the byte and subtracts it, with the borrow, from A.
#[verifier::spinoff_prover]
#[verifier::rlimit(60)]
pub proof fn lemma_isc(r: Registers, v: u8)
    ensures
        ({
            let c: int = if bit_set(r.status, 0x01) { 1 } else { 0 };
            let isc = rmw_spec(Operation::Isc, r, v);
            &&& isc.0 == (v + 1) % 256
            &&& isc.1.register_a == (r.register_a - isc.0 - (1 - c) + 512) % 256
            &&& xy_sp_pc_same(isc.1, r)
        }),
{
    let s = r.status;
    let ni: u8 = if v + 1 > 255 { (v + 1 - 256) as u8 } else { (v + 1) as u8 };
    lemma_zn_keeps_carry(s, ni);
    let r2 = Registers { status: zn(s, ni), ..r };
    lemma_sbc(r2, ni);
    let o = rmw_spec(Operation::Isc, r, v);
    assert(o.0 == ni);
    assert(o.1.register_a == read_op_spec(Operation::Sbc, r2, ni).register_a);
}

/// SLO shifts the byte left and ORs it into A, bit 7 going to CARRY.
#[verifier::spinoff_prover]
#[verifier::rlimit(60)]
pub proof fn lemma_slo(r: Registers, v: u8)
    ensures
        ({
            let slo = rmw_spec(Operation::Slo, r, v);
            &&& slo.0 == (2 * v) % 256 && slo.1.register_a == r.register_a | slo.0
            &&& bit_set(slo.1.status, 0x01) == (v >= 128)
            &&& xy_sp_pc_same(slo.1, r)
        }),
{
    let s = r.status;
    let nl = ((v % 128) * 2) as u8;
    assert(nl == (2 * v) % 256);
    let s1 = zn(set_bits(s, 1, v >= 128), nl);
    lemma_zn_then_carry(s, nl, v >= 128);
    lemma_zn_keeps_carry(s1, r.register_a | nl);
    let o = rmw_spec(Operation::Slo, r, v);
    assert(o.0 == nl && o.1 == (Registers { register_a: r.register_a | nl, status: zn(s1, r.register_a | nl), ..r }));
}

/// SRE shifts the byte right and XORs it into A, bit 0 going to CARRY.
#[verifier::spinoff_prover]
#[verifier::rlimit(60)]
pub proof fn lemma_sre(r: Registers, v: u8)
    ensures
        ({
            let sre = rmw_spec(Operation::Sre, r, v);
            &&& sre.0 == v / 2 && sre.1.register_a == r.register_a ^ sre.0
            &&& bit_set(sre.1.status, 0x01) == (v % 2 == 1)
            &&& xy_sp_pc_same(sre.1, r)
        }),
{
    let s = r.status;
    let nr = v / 2;
    let s2 = zn(set_bits(s, 1, v % 2 == 1), nr);
    lemma_zn_then_carry(s, nr, v % 2 == 1);
    lemma_zn_keeps_carry(s2, r.register_a ^ nr);
    let o = rmw_spec(Operation::Sre, r, v);
    assert(o.0 == nr && o.1 == (Registers { register_a: r.register_a ^ nr, status: zn(s2, r.register_a ^ nr), ..r }));
}

/// RLA rotates the byte left through the carry and ANDs it into A, bit 7 going to CARRY.
#[verifier::spinoff_prover]
#[verifier::rlimit(60)]
pub proof fn lemma_rla(r: Registers, v: u8)
    ensures
        ({
            let c: int = if bit_set(r.status, 0x01) { 1 } else { 0 };
            let rla = rmw_spec(Operation::Rla, r, v);
            &&& rla.0 == (2 * v + c) % 256 && rla.1.register_a == r.register_a & rla.0
            &&& bit_set(rla.1.status, 0x01) == (v >= 128)
            &&& xy_sp_pc_same(rla.1, r)
        }),
{
    let s = r.status;
    lemma_carry_bit(s);
    let cf = s & 1 == 1;
    let tl = (((v % 128) * 2) + (if cf { 1int } else { 0int })) as u8;
    let s3 = set_bits(zn(s, tl), 1, v >= 128);
    lemma_zn_then_carry(s, tl, v >= 128);
    lemma_zn_keeps_carry(s3, r.register_a & tl);
    let o = rmw_spec(Operation::Rla, r, v);
    assert(o.0 == tl && o.1 == (Registers { register_a: r.register_a & tl, status: zn(s3, r.register_a & tl), ..r }));
}

/// RRA rotates the byte right through the carry and adds it to A, with the bit rotated
/// out as the carry of the addition.
#[verifier::spinoff_prover]
#[verifier::rlimit(60)]
pub proof fn lemma_rra(r: Registers, v: u8)
    ensures
        ({
            let c: int = if bit_set(r.status, 0x01) { 1 } else { 0 };
            let rra = rmw_spec(Operation::Rra, r, v);
            &&& rra.0 == v / 2 + 128 * c
            &&& rra.1.register_a == (r.register_a + rra.0 + (if v % 2 == 1 { 1int } else { 0int })) % 256
            &&& xy_sp_pc_same(rra.1, r)
        }),
{
    let s = r.status;
    lemma_carry_bit(s);
    let cf = s & 1 == 1;
    let tr = (v / 2 + (if cf { 128int } else { 0int })) as u8;
    let s4 = set_bits(zn(s, tr), 1, v % 2 == 1);
    lemma_zn_then_carry(s, tr, v % 2 == 1);
    lemma_adc(Registers { status: s4, ..r }, tr);
    let o = rmw_spec(Operation::Rra, r, v);
    assert(o.0 == tr);
    assert(o.1.register_a == read_op_spec(Operation::Adc, Registers { status: s4, ..r }, tr).register_a);
}

} // verus!
