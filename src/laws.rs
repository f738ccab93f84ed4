use vstd::prelude::*;

use crate::instructions::{decode, lemma_decode_accepts, AddressingMode, Operation};
use crate::machine::{add16, shift_byte, CpuError, CpuState};
use crate::status::{Flag, StatusFlags};

verus! {

/// `n` rotations left through the carry of the byte `v` with carry `c`.
pub open spec fn rotate_byte_left(v: u8, c: bool, n: nat) -> (u8, bool)
    decreases n,
{
    if n == 0 {
        (v, c)
    } else {
        let (r, carry) = shift_byte(Operation::Rol, v, c);
        rotate_byte_left(r, carry, (n - 1) as nat)
    }
}

impl CpuState {
    /// The state after `n` rotate-left instructions on the accumulator.
    pub open spec fn rotate_left_times(self, n: nat) -> CpuState
        decreases n,
    {
        if n == 0 {
            self
        } else {
            self.execute(Operation::Rol, AddressingMode::Accumulator).rotate_left_times(
                (n - 1) as nat,
            )
        }
    }
}

/// Rotating the accumulator acts on the accumulator and Carry as rotating
/// the byte does.
pub proof fn lemma_rotate_left_times_byte(s: CpuState, n: nat)
    ensures
        (s.rotate_left_times(n).a, s.rotate_left_times(n).status.flag(Flag::Carry))
            == rotate_byte_left(s.a, s.status.flag(Flag::Carry), n),
    decreases n,
{
    broadcast use StatusFlags::lemma_flag_with_flag;

    if n > 0 {
        let t = s.execute(Operation::Rol, AddressingMode::Accumulator);
        lemma_rotate_left_times_byte(t, (n - 1) as nat);
    }
}

/// One rotation left through the carry, with the carry as a 0/1 byte.
proof fn lemma_rotate_step(v: u8, c: bool)
    ensures
        shift_byte(Operation::Rol, v, c).0 == (v << 1u8) | (if c {
            1u8
        } else {
            0u8
        }),
        (if shift_byte(Operation::Rol, v, c).1 {
            1u8
        } else {
            0u8
        }) == v >> 7u8,
{
    assert((v & 0x80 != 0) == (v >> 7u8 == 1u8)) by (bit_vector);
    assert((v & 0x80 == 0) == (v >> 7u8 == 0u8)) by (bit_vector);
}

/// Nine rotations left through the carry give back the byte and the carry:
/// the byte and the carry together are a nine-bit value rotated by one place
/// each time.
pub proof fn lemma_rotate_byte_nine_times(v: u8, c: bool)
    ensures
        rotate_byte_left(v, c, 9) == (v, c),
{
    reveal_with_fuel(rotate_byte_left, 10);
    let (v1, c1) = shift_byte(Operation::Rol, v, c);
    let (v2, c2) = shift_byte(Operation::Rol, v1, c1);
    let (v3, c3) = shift_byte(Operation::Rol, v2, c2);
    let (v4, c4) = shift_byte(Operation::Rol, v3, c3);
    let (v5, c5) = shift_byte(Operation::Rol, v4, c4);
    let (v6, c6) = shift_byte(Operation::Rol, v5, c5);
    let (v7, c7) = shift_byte(Operation::Rol, v6, c6);
    let (v8, c8) = shift_byte(Operation::Rol, v7, c7);
    let (v9, c9) = shift_byte(Operation::Rol, v8, c8);
    lemma_rotate_step(v, c);
    lemma_rotate_step(v1, c1);
    lemma_rotate_step(v2, c2);
    lemma_rotate_step(v3, c3);
    lemma_rotate_step(v4, c4);
    lemma_rotate_step(v5, c5);
    lemma_rotate_step(v6, c6);
    lemma_rotate_step(v7, c7);
    lemma_rotate_step(v8, c8);
    let b0: u8 = if c { 1 } else { 0 };
    let b1: u8 = if c1 { 1 } else { 0 };
    let b2: u8 = if c2 { 1 } else { 0 };
    let b3: u8 = if c3 { 1 } else { 0 };
    let b4: u8 = if c4 { 1 } else { 0 };
    let b5: u8 = if c5 { 1 } else { 0 };
    let b6: u8 = if c6 { 1 } else { 0 };
    let b7: u8 = if c7 { 1 } else { 0 };
    let b8: u8 = if c8 { 1 } else { 0 };
    let b9: u8 = if c9 { 1 } else { 0 };
    assert(v9 == v && b9 == b0) by (bit_vector)
        requires
            b0 <= 1,
            v1 == (v << 1u8) | b0,
            b1 == v >> 7u8,
            v2 == (v1 << 1u8) | b1,
            b2 == v1 >> 7u8,
            v3 == (v2 << 1u8) | b2,
            b3 == v2 >> 7u8,
            v4 == (v3 << 1u8) | b3,
            b4 == v3 >> 7u8,
            v5 == (v4 << 1u8) | b4,
            b5 == v4 >> 7u8,
            v6 == (v5 << 1u8) | b5,
            b6 == v5 >> 7u8,
            v7 == (v6 << 1u8) | b6,
            b7 == v6 >> 7u8,
            v8 == (v7 << 1u8) | b7,
            b8 == v7 >> 7u8,
            v9 == (v8 << 1u8) | b8,
            b9 == v8 >> 7u8,
    ;
}

/// Nine rotate-left instructions on the accumulator give back the
/// accumulator and the carry it started with, whatever their values.
pub proof fn lemma_rotate_left_nine_times(s: CpuState)
    ensures
        s.rotate_left_times(9).a == s.a,
        s.rotate_left_times(9).status.flag(Flag::Carry) == s.status.flag(Flag::Carry),
{
    lemma_rotate_left_times_byte(s, 9);
    lemma_rotate_byte_nine_times(s.a, s.status.flag(Flag::Carry));
}

/// Eight rotate-left instructions give back the accumulator and the carry
/// when all nine bits are equal: accumulator 0x00 with Carry clear, or 0xFF
/// with Carry set. (Other values come back after nine.)
pub proof fn lemma_rotate_left_eight_times(s: CpuState)
    requires
        (s.a == 0 && !s.status.flag(Flag::Carry)) || (s.a == 0xFF && s.status.flag(
            Flag::Carry,
        )),
    ensures
        s.rotate_left_times(8).a == s.a,
        s.rotate_left_times(8).status.flag(Flag::Carry) == s.status.flag(Flag::Carry),
{
    reveal_with_fuel(rotate_byte_left, 9);
    lemma_rotate_left_times_byte(s, 8);
    let v = s.a;
    lemma_rotate_step(v, s.status.flag(Flag::Carry));
    assert((0u8 << 1u8) | 0u8 == 0u8 && 0u8 >> 7u8 == 0u8) by (bit_vector);
    assert((0xFFu8 << 1u8) | 1u8 == 0xFFu8 && 0xFFu8 >> 7u8 == 1u8) by (bit_vector);
}

/// Executing an operation never moves the program counter.
pub proof fn lemma_execute_keeps_pc(s: CpuState, op: Operation, mode: AddressingMode)
    ensures
        s.execute(op, mode).pc == s.pc,
{
}

/// Dispatch covers the opcode table. A byte at the program counter that the
/// table lists runs its operation, in a mode the operation accepts, and moves
/// the program counter past the whole instruction (the halt stops after its
/// opcode byte); a byte the table does not list stops execution with
/// `UnrecognizedOpcode` naming the byte and its address, changing nothing.
pub proof fn lemma_dispatch(s: CpuState)
    ensures
        match decode(s.read(s.pc)) {
            None => s.next() == Err::<(CpuState, bool), CpuError>(
                CpuError::UnrecognizedOpcode { opcode: s.read(s.pc), address: s.pc },
            ),
            Some((op, mode, _)) => {
                &&& op.accepts(mode)
                &&& s.next() is Ok
                &&& s.next().unwrap().1 == (op is Brk)
                &&& op is Brk ==> s.next().unwrap().0 == (CpuState { pc: add16(s.pc, 1), ..s })
                &&& !(op is Brk) ==> s.next().unwrap().0 == (CpuState {
                    pc: add16(s.pc, mode.spec_length() as u16),
                    ..(CpuState { pc: add16(s.pc, 1), ..s }).execute(op, mode)
                })
            },
        },
{
    lemma_decode_accepts(s.read(s.pc));
    if let Some((op, mode, _)) = decode(s.read(s.pc)) {
        lemma_execute_keeps_pc(CpuState { pc: add16(s.pc, 1), ..s }, op, mode);
    }
}

} // verus!
