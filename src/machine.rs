use vstd::prelude::*;

use crate::instructions::{decode, AddressingMode, Operation};
use crate::status::{is_negative, Flag, StatusFlags};

verus! {

/// Number of addressable bytes.
pub const MEMORY_SIZE: usize = 0x10000;

/// Address at which `load` places a program.
pub const PROGRAM_START: u16 = 0x8000;

/// Address of the little-endian reset vector.
pub const RESET_VECTOR: u16 = 0xFFFC;

/// Largest number of instructions one call of `run` executes.
pub const STEP_LIMIT: u64 = 0xFFFF_FFFF_FFFF_FFFF;

/// The two ways execution can fail.
#[derive(Clone, Copy, Debug, PartialEq, Eq, Structural)]
pub enum CpuError {
    /// The byte fetched at `address` is not an opcode of the table.
    UnrecognizedOpcode { opcode: u8, address: u16 },
    /// An address was asked of a mode that names none (Implicit or Accumulator).
    UnsupportedAddressingMode { mode: AddressingMode },
}

/// Sum of two bytes, modulo 256.
pub open spec fn add8(a: u8, b: u8) -> u8 {
    ((a + b) % 256) as u8
}

/// Difference of two bytes, modulo 256.
pub open spec fn sub8(a: u8, b: u8) -> u8 {
    ((a - b + 256) % 256) as u8
}

/// Sum of two 16-bit words, modulo 65536.
pub open spec fn add16(a: u16, b: u16) -> u16 {
    ((a + b) % 65536) as u16
}

/// The 16-bit word with low byte `lo` and high byte `hi`.
pub open spec fn word(lo: u8, hi: u8) -> u16 {
    (hi * 256 + lo) as u16
}

/// Result and outgoing carry of a shift or rotate of `v` with incoming carry `c`.
pub open spec fn shift_byte(op: Operation, v: u8, c: bool) -> (u8, bool) {
    match op {
        Operation::Asl => (v << 1u8, v & 0x80 != 0),
        Operation::Lsr => (v >> 1u8, v & 0x01 != 0),
        Operation::Rol => ((v << 1u8) | (if c { 1u8 } else { 0u8 }), v & 0x80 != 0),
        _ => ((v >> 1u8) | (if c { 0x80u8 } else { 0u8 }), v & 0x01 != 0),
    }
}

/// The registers and memory of the processor, as mathematical values.
pub struct CpuState {
    pub a: u8,
    pub x: u8,
    pub y: u8,
    pub status: StatusFlags,
    pub sp: u8,
    pub pc: u16,
    pub memory: Seq<u8>,
}

impl CpuState {
    pub open spec fn read(self, addr: u16) -> u8 {
        self.memory[addr as int]
    }

    pub open spec fn write(self, addr: u16, v: u8) -> CpuState {
        CpuState { memory: self.memory.update(addr as int, v), ..self }
    }

    /// Little-endian word at `addr` and the byte after it (wrapping at the top of memory).
    pub open spec fn read_u16(self, addr: u16) -> u16 {
        word(self.read(addr), self.read(add16(addr, 1)))
    }

    pub open spec fn write_u16(self, addr: u16, v: u16) -> CpuState {
        self.write(addr, (v % 256) as u8).write(add16(addr, 1), (v / 256) as u8)
    }

    pub open spec fn with_status(self, status: StatusFlags) -> CpuState {
        CpuState { status, ..self }
    }

    /// Zero and Negative recomputed from the result byte `v`.
    pub open spec fn with_zero_negative(self, v: u8) -> CpuState {
        self.with_status(self.status.with_zero_negative(v))
    }

    pub open spec fn with_flag(self, f: Flag, v: bool) -> CpuState {
        self.with_status(self.status.with_flag(f, v))
    }

    /// Effective address of the operand in `mode`, read relative to the
    /// program counter (which points just past the opcode). Zero for the two
    /// modes that name no address.
    pub open spec fn address(self, mode: AddressingMode) -> u16 {
        let arg = self.read(self.pc);
        match mode {
            AddressingMode::Implicit | AddressingMode::Accumulator => 0,
            AddressingMode::Immediate => self.pc,
            AddressingMode::ZeroPage => arg as u16,
            AddressingMode::ZeroPageX => add8(arg, self.x) as u16,
            AddressingMode::ZeroPageY => add8(arg, self.y) as u16,
            AddressingMode::Absolute => self.read_u16(self.pc),
            AddressingMode::AbsoluteX => add16(self.read_u16(self.pc), self.x as u16),
            AddressingMode::AbsoluteY => add16(self.read_u16(self.pc), self.y as u16),
            AddressingMode::Relative => add16(self.pc, arg as u16),
            AddressingMode::Indirect => self.read_u16(self.pc),
            AddressingMode::IndirectX => {
                let ptr = add8(arg, self.x);
                word(self.read(ptr as u16), self.read(add8(ptr, 1) as u16))
            },
            AddressingMode::IndirectY => {
                let base = word(self.read(arg as u16), self.read(add8(arg, 1) as u16));
                add16(base, self.y as u16)
            },
        }
    }

    /// Adds `v` and the carry to the accumulator, setting Overflow, Carry,
    /// Zero and Negative.
    pub open spec fn add_to_accumulator(self, v: u8) -> CpuState {
        let sum = self.a + v + if self.status.flag(Flag::Carry) {
            1int
        } else {
            0int
        };
        let r = (sum % 256) as u8;
        let overflow = is_negative(self.a) == is_negative(v) && is_negative(r) != is_negative(
            self.a,
        );
        CpuState { a: r, ..self }.with_flag(Flag::Overflow, overflow).with_flag(
            Flag::Carry,
            sum > 255,
        ).with_zero_negative(r)
    }

    /// A shift or rotate on the accumulator (Accumulator mode) or on memory.
    pub open spec fn shift(self, op: Operation, mode: AddressingMode) -> CpuState {
        let c = self.status.flag(Flag::Carry);
        if mode is Accumulator {
            let (r, carry) = shift_byte(op, self.a, c);
            CpuState { a: r, ..self }.with_flag(Flag::Carry, carry).with_zero_negative(r)
        } else {
            let addr = self.address(mode);
            let (r, carry) = shift_byte(op, self.read(addr), c);
            self.write(addr, r).with_flag(Flag::Carry, carry).with_zero_negative(r)
        }
    }

    /// The effect of executing `op` in `mode`, the program counter already
    /// past the opcode. The program counter is left where it is.
    pub open spec fn execute(self, op: Operation, mode: AddressingMode) -> CpuState {
        let addr = self.address(mode);
        let m = self.read(addr);
        match op {
            Operation::Lda => CpuState { a: m, ..self }.with_zero_negative(m),
            Operation::Sta => self.write(addr, self.a),
            Operation::Ldx => CpuState { x: m, ..self }.with_zero_negative(m),
            Operation::Stx => self.write(addr, self.x),
            Operation::Ldy => CpuState { y: m, ..self }.with_zero_negative(m),
            Operation::Sty => self.write(addr, self.y),
            Operation::Tax => CpuState { x: self.a, ..self }.with_zero_negative(self.a),
            Operation::Txa => CpuState { a: self.x, ..self }.with_zero_negative(self.x),
            Operation::Tay => CpuState { y: self.a, ..self }.with_zero_negative(self.a),
            Operation::Tya => CpuState { a: self.y, ..self }.with_zero_negative(self.y),
            Operation::Adc => self.add_to_accumulator(m),
            Operation::Sbc => self.add_to_accumulator(!m),
            Operation::Inc => self.write(addr, add8(m, 1)).with_zero_negative(add8(m, 1)),
            Operation::Dec => self.write(addr, sub8(m, 1)).with_zero_negative(sub8(m, 1)),
            Operation::Dex => CpuState { x: sub8(self.x, 1), ..self }.with_zero_negative(
                sub8(self.x, 1),
            ),
            Operation::Inx => CpuState { x: add8(self.x, 1), ..self }.with_zero_negative(
                add8(self.x, 1),
            ),
            Operation::Iny => CpuState { y: add8(self.y, 1), ..self }.with_zero_negative(
                add8(self.y, 1),
            ),
            Operation::Dey => CpuState { y: sub8(self.y, 1), ..self }.with_zero_negative(
                sub8(self.y, 1),
            ),
            Operation::Asl | Operation::Lsr | Operation::Rol | Operation::Ror => self.shift(
                op,
                mode,
            ),
            Operation::And => CpuState { a: self.a & m, ..self }.with_zero_negative(self.a & m),
            Operation::Ora => CpuState { a: self.a | m, ..self }.with_zero_negative(self.a | m),
            Operation::Eor => CpuState { a: self.a ^ m, ..self }.with_zero_negative(self.a ^ m),
            Operation::Brk => self,
        }
    }

    /// One fetch-decode-execute cycle: the state after it and whether the
    /// instruction was the halt, or the error that stops execution.
    pub open spec fn next(self) -> Result<(CpuState, bool), CpuError> {
        let opcode = self.read(self.pc);
        let fetched = CpuState { pc: add16(self.pc, 1), ..self };
        match decode(opcode) {
            None => Err(CpuError::UnrecognizedOpcode { opcode, address: self.pc }),
            Some((op, mode, _)) => if op is Brk {
                Ok((fetched, true))
            } else {
                let s = fetched.execute(op, mode);
                Ok((CpuState { pc: add16(s.pc, (mode.spec_length() - 1) as u16), ..s }, false))
            },
        }
    }

    /// Runs for at most `fuel` instructions: the state reached and how the run
    /// ended (`Ok` also when the fuel ran out).
    pub open spec fn run_within(self, fuel: nat) -> (CpuState, Result<(), CpuError>)
        decreases fuel,
    {
        if fuel == 0 {
            (self, Ok(()))
        } else {
            match self.next() {
                Err(e) => (self, Err(e)),
                Ok((s, halted)) => if halted {
                    (s, Ok(()))
                } else {
                    s.run_within((fuel - 1) as nat)
                },
            }
        }
    }

    /// Registers cleared, status at its reset value, program counter read
    /// from the reset vector.
    pub open spec fn reset(self) -> CpuState {
        let s = CpuState { a: 0, x: 0, y: 0, status: StatusFlags::spec_reset(), ..self };
        CpuState { pc: s.read_u16(RESET_VECTOR), ..s }
    }

    /// `program` copied to memory from `PROGRAM_START` on, and the reset
    /// vector pointed at it.
    pub open spec fn load(self, program: Seq<u8>) -> CpuState {
        let start = PROGRAM_START as int;
        let memory = Seq::new(
            self.memory.len(),
            |i: int|
                if start <= i < start + program.len() {
                    program[i - start]
                } else {
                    self.memory[i]
                },
        );
        CpuState { memory, ..self }.write_u16(RESET_VECTOR, PROGRAM_START)
    }
}

} // verus!
