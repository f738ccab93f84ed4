use vstd::prelude::*;

use crate::instructions::{lemma_decode_accepts, AddressingMode, OpcodeTable, Operation};
use crate::machine::{
    add16, add8, word, CpuError, CpuState, MEMORY_SIZE, PROGRAM_START, RESET_VECTOR, STEP_LIMIT,
};
use crate::status::{is_negative, Flag, StatusFlags};

verus! {

/// The processor: registers, status flags, a flat 64 KiB memory and the
/// opcode table it decodes with.
pub struct Cpu {
    pub a: u8,
    pub x: u8,
    pub y: u8,
    status: StatusFlags,
    pub sp: u8,
    pub pc: u16,
    memory: [u8; MEMORY_SIZE],
    table: OpcodeTable,
}

/// The processor's registers and memory as a `CpuState`; the opcode table is
/// fixed by its own invariant and is not part of the state.
impl View for Cpu {
    type V = CpuState;

    closed spec fn view(&self) -> CpuState {
        CpuState {
            a: self.a,
            x: self.x,
            y: self.y,
            status: self.status,
            sp: self.sp,
            pc: self.pc,
            memory: self.memory@,
        }
    }
}

/// Overflow of an 8-bit two's-complement sum, computed from the sign bits.
proof fn lemma_overflow_bits(a: u8, v: u8, r: u8)
    ensures
        ((r ^ a) & (r ^ v) & 0x80 != 0) == (is_negative(a) == is_negative(v) && is_negative(r)
            != is_negative(a)),
{
    assert(((r ^ a) & (r ^ v) & 0x80 != 0) == ((a & 0x80 != 0) == (v & 0x80 != 0) && (r & 0x80
        != 0) != (a & 0x80 != 0))) by (bit_vector);
}

/// Wrapping sum of two bytes.
fn byte_sum(a: u8, b: u8) -> (r: u8)
    ensures
        r == add8(a, b),
{
    a.wrapping_add(b)
}

/// Wrapping sum of two words.
fn word_sum(a: u16, b: u16) -> (r: u16)
    ensures
        r == add16(a, b),
{
    a.wrapping_add(b)
}

/// The word with low byte `lo` and high byte `hi`.
fn word_of(lo: u8, hi: u8) -> (r: u16)
    ensures
        r == word(lo, hi),
{
    (hi as u16) * 256 + lo as u16
}

impl Cpu {
    pub fn mem_read(&self, addr: u16) -> (r: u8)
        ensures
            r == self@.read(addr),
    {
        self.memory[addr as usize]
    }

    pub fn mem_write(&mut self, addr: u16, data: u8)
        ensures
            final(self)@ == old(self)@.write(addr, data),
    {
        self.memory[addr as usize] = data;
    }

    /// Effective address of the operand in `mode`, read relative to the
    /// program counter; the program counter is not moved.
    fn operand_address(&self, mode: AddressingMode) -> (r: u16)
        requires
            mode.has_address(),
        ensures
            r == self@.address(mode),
    {
        let pc = self.pc;
        match mode {
            AddressingMode::Immediate => pc,
            AddressingMode::ZeroPage => self.mem_read(pc) as u16,
            AddressingMode::ZeroPageX => byte_sum(self.mem_read(pc), self.x) as u16,
            AddressingMode::ZeroPageY => byte_sum(self.mem_read(pc), self.y) as u16,
            AddressingMode::Absolute => self.mem_read_u16(pc),
            AddressingMode::AbsoluteX => word_sum(self.mem_read_u16(pc), self.x as u16),
            AddressingMode::AbsoluteY => word_sum(self.mem_read_u16(pc), self.y as u16),
            AddressingMode::Relative => word_sum(pc, self.mem_read(pc) as u16),
            AddressingMode::Indirect => self.mem_read_u16(pc),
            AddressingMode::IndirectX => {
                let ptr = byte_sum(self.mem_read(pc), self.x);
                let lo = self.mem_read(ptr as u16);
                let hi = self.mem_read(byte_sum(ptr, 1) as u16);
                word_of(lo, hi)
            },
            AddressingMode::IndirectY => {
                let base = self.mem_read(pc);
                let lo = self.mem_read(base as u16);
                let hi = self.mem_read(byte_sum(base, 1) as u16);
                word_sum(word_of(lo, hi), self.y as u16)
            },
            _ => 0,
        }
    }

    /// Effective address of the operand in `mode`, or
    /// `UnsupportedAddressingMode` for Implicit and Accumulator, which name
    /// no memory location.
    pub fn get_address(&self, mode: AddressingMode) -> (r: Result<u16, CpuError>)
        ensures
            r == if mode.has_address() {
                Ok::<u16, CpuError>(self@.address(mode))
            } else {
                Err::<u16, CpuError>(CpuError::UnsupportedAddressingMode { mode })
            },
    {
        match mode {
            AddressingMode::Implicit | AddressingMode::Accumulator => Err(
                CpuError::UnsupportedAddressingMode { mode },
            ),
            _ => Ok(self.operand_address(mode)),
        }
    }

    /// A processor with cleared registers, the reset status and zeroed memory.
    pub fn new() -> (r: Self)
        ensures
            r@.a == 0,
            r@.x == 0,
            r@.y == 0,
            r@.sp == 0,
            r@.pc == 0,
            r@.status == StatusFlags::spec_reset(),
            r@.memory == Seq::new(MEMORY_SIZE as nat, |i: int| 0u8),
    {
        let r = Cpu {
            a: 0,
            x: 0,
            y: 0,
            status: StatusFlags::reset_value(),
            sp: 0,
            pc: 0,
            memory: [0u8; MEMORY_SIZE],
            table: OpcodeTable::new(),
        };
        assert(r@.memory =~= Seq::new(MEMORY_SIZE as nat, |i: int| 0u8));
        r
    }

    /// Loads `program`, resets, and runs until the program halts.
    pub fn load_and_run(&mut self, program: Vec<u8>) -> (r: Result<(), CpuError>)
        requires
            program@.len() <= MEMORY_SIZE - PROGRAM_START,
        ensures
            (final(self)@, r) == old(self)@.load(program@).reset().run_within(STEP_LIMIT as nat),
    {
        self.load(program);
        self.reset();
        self.run()
    }

    /// Copies `program` into memory from `PROGRAM_START` on and points the
    /// reset vector at it.
    pub fn load(&mut self, program: Vec<u8>)
        requires
            program@.len() <= MEMORY_SIZE - PROGRAM_START,
        ensures
            final(self)@ == old(self)@.load(program@),
    {
        let n = program.len();
        let start = PROGRAM_START as usize;
        let mut i: usize = 0;
        while i < n
            invariant
                n == program@.len(),
                n <= MEMORY_SIZE - PROGRAM_START,
                start == PROGRAM_START,
                i <= n,
                self@ == (CpuState { memory: self@.memory, ..old(self)@ }),
                self@.memory.len() == MEMORY_SIZE,
                forall|j: int|
                    0 <= j < MEMORY_SIZE ==> #[trigger] self@.memory[j] == if start <= j < start
                        + i {
                        program@[j - start]
                    } else {
                        old(self)@.memory[j]
                    },
            decreases n - i,
        {
            self.memory[start + i] = program[i];
            i = i + 1;
        }
        let ghost copied = self@;
        assert(copied.memory =~= Seq::new(
            old(self)@.memory.len(),
            |j: int|
                if start <= j < start + program@.len() {
                    program@[j - start]
                } else {
                    old(self)@.memory[j]
                },
        ));
        self.mem_write_u16(RESET_VECTOR, PROGRAM_START);
    }

    /// Clears A, X and Y, installs the reset status and loads the program
    /// counter from the reset vector.
    pub fn reset(&mut self)
        ensures
            final(self)@ == old(self)@.reset(),
    {
        self.a = 0;
        self.x = 0;
        self.y = 0;
        self.status = StatusFlags::reset_value();
        self.pc = self.mem_read_u16(RESET_VECTOR);
    }

    /// Executes one instruction. Returns whether it was the halt; on an
    /// opcode that is not in the table, returns `UnrecognizedOpcode` and
    /// leaves the processor as it was.
    pub fn step(&mut self) -> (r: Result<bool, CpuError>)
        ensures
            match old(self)@.next() {
                Ok((s, halted)) => r == Ok::<bool, CpuError>(halted) && final(self)@ == s,
                Err(e) => r == Err::<bool, CpuError>(e) && final(self)@ == old(self)@,
            },
    {
        let opcode = self.mem_read(self.pc);
        match self.table.descriptor(opcode) {
            None => Err(CpuError::UnrecognizedOpcode { opcode, address: self.pc }),
            Some(d) => {
                proof {
                    lemma_decode_accepts(opcode);
                }
                let mode = d.instruction.addressing_mode;
                self.pc = word_sum(self.pc, 1);
                match d.operation {
                    Operation::Lda => self.lda(mode),
                    Operation::Sta => self.sta(mode),
                    Operation::Ldx => self.ldx(mode),
                    Operation::Stx => self.stx(mode),
                    Operation::Ldy => self.ldy(mode),
                    Operation::Sty => self.sty(mode),
                    Operation::Tax => self.tax(),
                    Operation::Txa => self.txa(),
                    Operation::Tay => self.tay(),
                    Operation::Tya => self.tya(),
                    Operation::Adc => self.adc(mode),
                    Operation::Sbc => self.sbc(mode),
                    Operation::Inc => self.inc(mode),
                    Operation::Dec => self.dec(mode),
                    Operation::Dex => self.dex(),
                    Operation::Inx => self.inx(),
                    Operation::Iny => self.iny(),
                    Operation::Dey => self.dey(),
                    Operation::Asl => self.asl(mode),
                    Operation::Lsr => self.lsr(mode),
                    Operation::Rol => self.rol(mode),
                    Operation::Ror => self.ror(mode),
                    Operation::And => self.and(mode),
                    Operation::Ora => self.ora(mode),
                    Operation::Eor => self.eor(mode),
                    Operation::Brk => {
                        return Ok(true);
                    },
                }
                self.pc = word_sum(self.pc, (d.instruction.bytes - 1) as u16);
                Ok(false)
            },
        }
    }

    /// Runs from the program counter until the halt opcode or an error, for
    /// at most `STEP_LIMIT` instructions.
    pub fn run(&mut self) -> (r: Result<(), CpuError>)
        ensures
            (final(self)@, r) == old(self)@.run_within(STEP_LIMIT as nat),
    {
        let mut remaining: u64 = STEP_LIMIT;
        while remaining > 0
            invariant
                self@.run_within(remaining as nat) == old(self)@.run_within(STEP_LIMIT as nat),
            decreases remaining,
        {
            match self.step() {
                Err(e) => {
                    return Err(e);
                },
                Ok(true) => {
                    return Ok(());
                },
                Ok(false) => {},
            }
            remaining = remaining - 1;
        }
        Ok(())
    }

    // Access

    fn lda(&mut self, mode: AddressingMode)
        requires
            mode.has_address(),
        ensures
            final(self)@ == old(self)@.execute(Operation::Lda, mode),
    {
        let addr = self.operand_address(mode);
        let value = self.mem_read(addr);
        self.a = value;
        self.update_zero_and_negative_flags(value);
    }

    fn sta(&mut self, mode: AddressingMode)
        requires
            mode.has_address(),
        ensures
            final(self)@ == old(self)@.execute(Operation::Sta, mode),
    {
        let addr = self.operand_address(mode);
        let a = self.a;
        self.mem_write(addr, a);
    }

    fn ldx(&mut self, mode: AddressingMode)
        requires
            mode.has_address(),
        ensures
            final(self)@ == old(self)@.execute(Operation::Ldx, mode),
    {
        let addr = self.operand_address(mode);
        let value = self.mem_read(addr);
        self.x = value;
        self.update_zero_and_negative_flags(value);
    }

    fn stx(&mut self, mode: AddressingMode)
        requires
            mode.has_address(),
        ensures
            final(self)@ == old(self)@.execute(Operation::Stx, mode),
    {
        let addr = self.operand_address(mode);
        let x = self.x;
        self.mem_write(addr, x);
    }

    fn ldy(&mut self, mode: AddressingMode)
        requires
            mode.has_address(),
        ensures
            final(self)@ == old(self)@.execute(Operation::Ldy, mode),
    {
        let addr = self.operand_address(mode);
        let value = self.mem_read(addr);
        self.y = value;
        self.update_zero_and_negative_flags(value);
    }

    fn sty(&mut self, mode: AddressingMode)
        requires
            mode.has_address(),
        ensures
            final(self)@ == old(self)@.execute(Operation::Sty, mode),
    {
        let addr = self.operand_address(mode);
        let y = self.y;
        self.mem_write(addr, y);
    }

    // Transfer

    fn tax(&mut self)
        ensures
            final(self)@ == old(self)@.execute(Operation::Tax, AddressingMode::Implicit),
    {
        self.x = self.a;
        let x = self.x;
        self.update_zero_and_negative_flags(x);
    }

    fn txa(&mut self)
        ensures
            final(self)@ == old(self)@.execute(Operation::Txa, AddressingMode::Implicit),
    {
        self.a = self.x;
        let a = self.a;
        self.update_zero_and_negative_flags(a);
    }

    fn tay(&mut self)
        ensures
            final(self)@ == old(self)@.execute(Operation::Tay, AddressingMode::Implicit),
    {
        self.y = self.a;
        let y = self.y;
        self.update_zero_and_negative_flags(y);
    }

    fn tya(&mut self)
        ensures
            final(self)@ == old(self)@.execute(Operation::Tya, AddressingMode::Implicit),
    {
        self.a = self.y;
        let a = self.a;
        self.update_zero_and_negative_flags(a);
    }

    // Arithmetic

    fn adc(&mut self, mode: AddressingMode)
        requires
            mode.has_address(),
        ensures
            final(self)@ == old(self)@.execute(Operation::Adc, mode),
    {
        let addr = self.operand_address(mode);
        let value = self.mem_read(addr);
        self.add_to_accumulator(value);
    }

    fn sbc(&mut self, mode: AddressingMode)
        requires
            mode.has_address(),
        ensures
            final(self)@ == old(self)@.execute(Operation::Sbc, mode),
    {
        let addr = self.operand_address(mode);
        let value = self.mem_read(addr);
        self.add_to_accumulator(!value);
    }

    fn inc(&mut self, mode: AddressingMode)
        requires
            mode.has_address(),
        ensures
            final(self)@ == old(self)@.execute(Operation::Inc, mode),
    {
        let addr = self.operand_address(mode);
        let value = self.mem_read(addr);
        let result = value.wrapping_add(1);
        self.mem_write(addr, result);
        self.update_zero_and_negative_flags(result);
    }

    fn dec(&mut self, mode: AddressingMode)
        requires
            mode.has_address(),
        ensures
            final(self)@ == old(self)@.execute(Operation::Dec, mode),
    {
        let addr = self.operand_address(mode);
        let value = self.mem_read(addr);
        let result = value.wrapping_sub(1);
        self.mem_write(addr, result);
        self.update_zero_and_negative_flags(result);
    }

    fn dex(&mut self)
        ensures
            final(self)@ == old(self)@.execute(Operation::Dex, AddressingMode::Implicit),
    {
        self.x = self.x.wrapping_sub(1);
        let x = self.x;
        self.update_zero_and_negative_flags(x);
    }

    fn inx(&mut self)
        ensures
            final(self)@ == old(self)@.execute(Operation::Inx, AddressingMode::Implicit),
    {
        self.x = self.x.wrapping_add(1);
        let x = self.x;
        self.update_zero_and_negative_flags(x);
    }

    fn iny(&mut self)
        ensures
            final(self)@ == old(self)@.execute(Operation::Iny, AddressingMode::Implicit),
    {
        self.y = self.y.wrapping_add(1);
        let y = self.y;
        self.update_zero_and_negative_flags(y);
    }

    fn dey(&mut self)
        ensures
            final(self)@ == old(self)@.execute(Operation::Dey, AddressingMode::Implicit),
    {
        self.y = self.y.wrapping_sub(1);
        let y = self.y;
        self.update_zero_and_negative_flags(y);
    }

    // Shift

    fn asl(&mut self, mode: AddressingMode)
        requires
            mode is Accumulator || mode.has_address(),
        ensures
            final(self)@ == old(self)@.execute(Operation::Asl, mode),
    {
        if mode == AddressingMode::Accumulator {
            let value = self.a;
            let carry_out = value & 0x80;
            let result = value << 1;
            self.a = result;
            self.update_carry_flag(carry_out);
            self.update_zero_and_negative_flags(result);
        } else {
            let addr = self.operand_address(mode);
            let value = self.mem_read(addr);
            let carry_out = value & 0x80;
            let result = value << 1;
            self.mem_write(addr, result);
            self.update_carry_flag(carry_out);
            self.update_zero_and_negative_flags(result);
        }
    }

    fn lsr(&mut self, mode: AddressingMode)
        requires
            mode is Accumulator || mode.has_address(),
        ensures
            final(self)@ == old(self)@.execute(Operation::Lsr, mode),
    {
        if mode == AddressingMode::Accumulator {
            let value = self.a;
            let carry_out = value & 0x01;
            let result = value >> 1;
            self.a = result;
            self.update_carry_flag(carry_out);
            self.update_zero_and_negative_flags(result);
        } else {
            let addr = self.operand_address(mode);
            let value = self.mem_read(addr);
            let carry_out = value & 0x01;
            let result = value >> 1;
            self.mem_write(addr, result);
            self.update_carry_flag(carry_out);
            self.update_zero_and_negative_flags(result);
        }
    }

    fn rol(&mut self, mode: AddressingMode)
        requires
            mode is Accumulator || mode.has_address(),
        ensures
            final(self)@ == old(self)@.execute(Operation::Rol, mode),
    {
        let carry_in: u8 = self.get_carry_flag();
        if mode == AddressingMode::Accumulator {
            let value = self.a;
            let carry_out = value & 0x80;
            let result = (value << 1) | carry_in;
            self.a = result;
            self.update_carry_flag(carry_out);
            self.update_zero_and_negative_flags(result);
        } else {
            let addr = self.operand_address(mode);
            let value = self.mem_read(addr);
            let carry_out = value & 0x80;
            let result = (value << 1) | carry_in;
            self.mem_write(addr, result);
            self.update_carry_flag(carry_out);
            self.update_zero_and_negative_flags(result);
        }
    }

    fn ror(&mut self, mode: AddressingMode)
        requires
            mode is Accumulator || mode.has_address(),
        ensures
            final(self)@ == old(self)@.execute(Operation::Ror, mode),
    {
        let carry_in: u8 = if self.status.get(Flag::Carry) {
            0x80
        } else {
            0
        };
        if mode == AddressingMode::Accumulator {
            let value = self.a;
            let carry_out = value & 0x01;
            let result = (value >> 1) | carry_in;
            self.a = result;
            self.update_carry_flag(carry_out);
            self.update_zero_and_negative_flags(result);
        } else {
            let addr = self.operand_address(mode);
            let value = self.mem_read(addr);
            let carry_out = value & 0x01;
            let result = (value >> 1) | carry_in;
            self.mem_write(addr, result);
            self.update_carry_flag(carry_out);
            self.update_zero_and_negative_flags(result);
        }
    }

    // Bitwise

    fn and(&mut self, mode: AddressingMode)
        requires
            mode.has_address(),
        ensures
            final(self)@ == old(self)@.execute(Operation::And, mode),
    {
        let addr = self.operand_address(mode);
        let value = self.mem_read(addr);
        self.a = self.a & value;
        let a = self.a;
        self.update_zero_and_negative_flags(a);
    }

    fn ora(&mut self, mode: AddressingMode)
        requires
            mode.has_address(),
        ensures
            final(self)@ == old(self)@.execute(Operation::Ora, mode),
    {
        let addr = self.operand_address(mode);
        let value = self.mem_read(addr);
        self.a = self.a | value;
        let a = self.a;
        self.update_zero_and_negative_flags(a);
    }

    fn eor(&mut self, mode: AddressingMode)
        requires
            mode.has_address(),
        ensures
            final(self)@ == old(self)@.execute(Operation::Eor, mode),
    {
        let addr = self.operand_address(mode);
        let value = self.mem_read(addr);
        self.a = self.a ^ value;
        let a = self.a;
        self.update_zero_and_negative_flags(a);
    }

    // Other

    /// Adds `value` and the carry to the accumulator. Carry is set when the
    /// unsigned sum passes 0xFF, Overflow when two operands of one sign give
    /// a result of the other.
    fn add_to_accumulator(&mut self, value: u8)
        ensures
            final(self)@ == old(self)@.add_to_accumulator(value),
    {
        let carry_in = self.get_carry_flag() as u16;
        let sum: u16 = self.a as u16 + value as u16 + carry_in;
        let result = (sum % 256) as u8;
        let overflow_flag_value = (result ^ self.a) & (result ^ value) & 0x80;
        proof {
            lemma_overflow_bits(self.a, value, result);
        }
        self.a = result;
        self.update_overflow_flag(overflow_flag_value);
        self.update_carry_flag(if sum > 0xFF {
            1
        } else {
            0
        });
        self.update_zero_and_negative_flags(result);
    }

    /// Little-endian word at `addr`; the high byte comes from the next
    /// address, wrapping at the top of memory.
    pub fn mem_read_u16(&self, addr: u16) -> (r: u16)
        ensures
            r == self@.read_u16(addr),
    {
        let lo = self.mem_read(addr);
        let hi = self.mem_read(word_sum(addr, 1));
        word_of(lo, hi)
    }

    pub fn mem_write_u16(&mut self, addr: u16, data: u16)
        ensures
            final(self)@ == old(self)@.write_u16(addr, data),
    {
        let hi = (data / 256) as u8;
        let lo = (data % 256) as u8;
        self.mem_write(addr, lo);
        self.mem_write(word_sum(addr, 1), hi);
    }

    /// The status register.
    pub fn status(&self) -> (r: StatusFlags)
        ensures
            r == self@.status,
    {
        self.status
    }

    fn flag_bit(&self, f: Flag) -> (r: u8)
        ensures
            r == if self@.status.flag(f) {
                1u8
            } else {
                0u8
            },
    {
        if self.status.get(f) {
            1
        } else {
            0
        }
    }

    /// 1 when Zero is set, else 0.
    pub fn get_zero_flag(&self) -> (r: u8)
        ensures
            r == if self@.status.flag(Flag::Zero) {
                1u8
            } else {
                0u8
            },
    {
        self.flag_bit(Flag::Zero)
    }

    /// 1 when Negative is set, else 0.
    pub fn get_negative_flag(&self) -> (r: u8)
        ensures
            r == if self@.status.flag(Flag::Negative) {
                1u8
            } else {
                0u8
            },
    {
        self.flag_bit(Flag::Negative)
    }

    /// 1 when Overflow is set, else 0.
    pub fn get_overflow_flag(&self) -> (r: u8)
        ensures
            r == if self@.status.flag(Flag::Overflow) {
                1u8
            } else {
                0u8
            },
    {
        self.flag_bit(Flag::Overflow)
    }

    /// 1 when Carry is set, else 0.
    pub fn get_carry_flag(&self) -> (r: u8)
        ensures
            r == if self@.status.flag(Flag::Carry) {
                1u8
            } else {
                0u8
            },
    {
        self.flag_bit(Flag::Carry)
    }

    fn update_zero_flag(&mut self, result: u8)
        ensures
            final(self)@ == old(self)@.with_flag(Flag::Zero, result == 0),
    {
        if result == 0 {
            self.status.set(Flag::Zero, true);
        } else {
            self.status.set(Flag::Zero, false);
        }
    }

    fn update_negative_flag(&mut self, result: u8)
        ensures
            final(self)@ == old(self)@.with_flag(Flag::Negative, is_negative(result)),
    {
        if result & 0x80 != 0 {
            self.status.set(Flag::Negative, true);
        } else {
            self.status.set(Flag::Negative, false);
        }
    }

    /// Sets Overflow when `value` is non-zero and clears it otherwise.
    fn update_overflow_flag(&mut self, value: u8)
        ensures
            final(self)@ == old(self)@.with_flag(Flag::Overflow, value != 0),
    {
        if value != 0 {
            self.status.set(Flag::Overflow, true);
        } else {
            self.status.set(Flag::Overflow, false);
        }
    }

    /// Sets Carry when `value` is non-zero and clears it otherwise.
    fn update_carry_flag(&mut self, value: u8)
        ensures
            final(self)@ == old(self)@.with_flag(Flag::Carry, value != 0),
    {
        if value != 0 {
            self.status.set(Flag::Carry, true);
        } else {
            self.status.set(Flag::Carry, false);
        }
    }

    /// Zero is set exactly when `result` is 0 and Negative exactly when its
    /// bit 7 is set; the other flags keep their values.
    pub fn update_zero_and_negative_flags(&mut self, result: u8)
        ensures
            final(self)@ == old(self)@.with_zero_negative(result),
            final(self)@.status.flag(Flag::Zero) == (result == 0),
            final(self)@.status.flag(Flag::Negative) == is_negative(result),
            forall|f: Flag|
                f != Flag::Zero && f != Flag::Negative ==> #[trigger] final(self)@.status.flag(f)
                    == old(self)@.status.flag(f),
    {
        self.update_zero_flag(result);
        self.update_negative_flag(result);
        proof {
            StatusFlags::lemma_zero_negative(old(self)@.status, result);
        }
    }
}

} // verus!
