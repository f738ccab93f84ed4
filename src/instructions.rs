use vstd::prelude::*;

verus! {

/// How an instruction finds its operand.
#[derive(Clone, Copy, Debug, PartialEq, Eq, Structural)]
pub enum AddressingMode {
    Implicit,
    Accumulator,
    Immediate,
    ZeroPage,
    ZeroPageX,
    ZeroPageY,
    Absolute,
    AbsoluteX,
    AbsoluteY,
    Relative,
    Indirect,
    IndirectX,
    IndirectY,
}

impl AddressingMode {
    /// Whether the mode names a memory location (every mode but Implicit and Accumulator).
    pub open spec fn has_address(self) -> bool {
        !(self is Implicit || self is Accumulator)
    }

    /// Total length in bytes of an instruction using this mode: the opcode
    /// and its operand bytes.
    pub open spec fn spec_length(self) -> u8 {
        match self {
            AddressingMode::Implicit | AddressingMode::Accumulator => 1,
            AddressingMode::Absolute
            | AddressingMode::AbsoluteX
            | AddressingMode::AbsoluteY
            | AddressingMode::Indirect => 3,
            _ => 2,
        }
    }

    pub fn length(self) -> (r: u8)
        ensures
            r == self.spec_length(),
    {
        match self {
            AddressingMode::Implicit | AddressingMode::Accumulator => 1,
            AddressingMode::Absolute
            | AddressingMode::AbsoluteX
            | AddressingMode::AbsoluteY
            | AddressingMode::Indirect => 3,
            _ => 2,
        }
    }
}

/// The instructions that the core executes, one per mnemonic.
#[derive(Clone, Copy, Debug, PartialEq, Eq, Structural)]
pub enum Operation {
    /// load the accumulator
    Lda,
    /// store the accumulator
    Sta,
    /// load X
    Ldx,
    /// store X
    Stx,
    /// load Y
    Ldy,
    /// store Y
    Sty,
    /// copy A into X
    Tax,
    /// copy X into A
    Txa,
    /// copy A into Y
    Tay,
    /// copy Y into A
    Tya,
    /// add with carry
    Adc,
    /// subtract with carry
    Sbc,
    /// increment memory
    Inc,
    /// decrement memory
    Dec,
    /// decrement X
    Dex,
    /// increment X
    Inx,
    /// increment Y
    Iny,
    /// decrement Y
    Dey,
    /// arithmetic shift left
    Asl,
    /// logical shift right
    Lsr,
    /// rotate left through carry
    Rol,
    /// rotate right through carry
    Ror,
    /// bitwise and into A
    And,
    /// bitwise or into A
    Ora,
    /// bitwise exclusive or into A
    Eor,
    /// break: halts execution
    Brk,
}

impl Operation {
    /// The three-letter assembler name of the operation.
    pub open spec fn spec_mnemonic(self) -> &'static str {
        match self {
            Operation::Lda => "LDA",
            Operation::Sta => "STA",
            Operation::Ldx => "LDX",
            Operation::Stx => "STX",
            Operation::Ldy => "LDY",
            Operation::Sty => "STY",
            Operation::Tax => "TAX",
            Operation::Txa => "TXA",
            Operation::Tay => "TAY",
            Operation::Tya => "TYA",
            Operation::Adc => "ADC",
            Operation::Sbc => "SBC",
            Operation::Inc => "INC",
            Operation::Dec => "DEC",
            Operation::Dex => "DEX",
            Operation::Inx => "INX",
            Operation::Iny => "INY",
            Operation::Dey => "DEY",
            Operation::Asl => "ASL",
            Operation::Lsr => "LSR",
            Operation::Rol => "ROL",
            Operation::Ror => "ROR",
            Operation::And => "AND",
            Operation::Ora => "ORA",
            Operation::Eor => "EOR",
            Operation::Brk => "BRK",
        }
    }

    pub fn mnemonic(self) -> (r: &'static str)
        ensures
            r == self.spec_mnemonic(),
    {
        match self {
            Operation::Lda => "LDA",
            Operation::Sta => "STA",
            Operation::Ldx => "LDX",
            Operation::Stx => "STX",
            Operation::Ldy => "LDY",
            Operation::Sty => "STY",
            Operation::Tax => "TAX",
            Operation::Txa => "TXA",
            Operation::Tay => "TAY",
            Operation::Tya => "TYA",
            Operation::Adc => "ADC",
            Operation::Sbc => "SBC",
            Operation::Inc => "INC",
            Operation::Dec => "DEC",
            Operation::Dex => "DEX",
            Operation::Inx => "INX",
            Operation::Iny => "INY",
            Operation::Dey => "DEY",
            Operation::Asl => "ASL",
            Operation::Lsr => "LSR",
            Operation::Rol => "ROL",
            Operation::Ror => "ROR",
            Operation::And => "AND",
            Operation::Ora => "ORA",
            Operation::Eor => "EOR",
            Operation::Brk => "BRK",
        }
    }

    /// Whether the operation works on registers alone and takes no operand.
    pub open spec fn is_implied(self) -> bool {
        self is Tax || self is Txa || self is Tay || self is Tya || self is Dex || self is Inx
            || self is Iny || self is Dey || self is Brk
    }

    /// Whether the operation is a shift or rotate, which may work on the accumulator.
    pub open spec fn is_shift(self) -> bool {
        self is Asl || self is Lsr || self is Rol || self is Ror
    }

    /// Whether `mode` is one the operation can execute with.
    pub open spec fn accepts(self, mode: AddressingMode) -> bool {
        if self.is_implied() {
            mode is Implicit
        } else if self.is_shift() {
            mode is Accumulator || mode.has_address()
        } else {
            mode.has_address()
        }
    }
}

/// The opcode table: for each supported opcode its operation, addressing
/// mode and base cycle count; `None` for an opcode the core does not know.
pub open spec fn decode(opcode: u8) -> Option<(Operation, AddressingMode, u8)> {
    match opcode {
        0xA9 => Some((Operation::Lda, AddressingMode::Immediate, 2)),
        0xA5 => Some((Operation::Lda, AddressingMode::ZeroPage, 3)),
        0xB5 => Some((Operation::Lda, AddressingMode::ZeroPageX, 4)),
        0xAD => Some((Operation::Lda, AddressingMode::Absolute, 4)),
        0xBD => Some((Operation::Lda, AddressingMode::AbsoluteX, 4)),
        0xB9 => Some((Operation::Lda, AddressingMode::AbsoluteY, 4)),
        0xA1 => Some((Operation::Lda, AddressingMode::IndirectX, 6)),
        0xB1 => Some((Operation::Lda, AddressingMode::IndirectY, 5)),
        0x85 => Some((Operation::Sta, AddressingMode::ZeroPage, 3)),
        0x95 => Some((Operation::Sta, AddressingMode::ZeroPageX, 4)),
        0x8D => Some((Operation::Sta, AddressingMode::Absolute, 4)),
        0x9D => Some((Operation::Sta, AddressingMode::AbsoluteX, 5)),
        0x99 => Some((Operation::Sta, AddressingMode::AbsoluteY, 5)),
        0x81 => Some((Operation::Sta, AddressingMode::IndirectX, 6)),
        0x91 => Some((Operation::Sta, AddressingMode::IndirectY, 6)),
        0xA2 => Some((Operation::Ldx, AddressingMode::Immediate, 2)),
        0xA6 => Some((Operation::Ldx, AddressingMode::ZeroPage, 3)),
        0xB6 => Some((Operation::Ldx, AddressingMode::ZeroPageY, 4)),
        0xAE => Some((Operation::Ldx, AddressingMode::Absolute, 4)),
        0xBE => Some((Operation::Ldx, AddressingMode::AbsoluteY, 4)),
        0x86 => Some((Operation::Stx, AddressingMode::ZeroPage, 3)),
        0x96 => Some((Operation::Stx, AddressingMode::ZeroPageY, 4)),
        0x8E => Some((Operation::Stx, AddressingMode::Absolute, 4)),
        0xA0 => Some((Operation::Ldy, AddressingMode::Immediate, 2)),
        0xA4 => Some((Operation::Ldy, AddressingMode::ZeroPage, 3)),
        0xB4 => Some((Operation::Ldy, AddressingMode::ZeroPageX, 4)),
        0xAC => Some((Operation::Ldy, AddressingMode::Absolute, 4)),
        0xBC => Some((Operation::Ldy, AddressingMode::AbsoluteX, 4)),
        0x84 => Some((Operation::Sty, AddressingMode::ZeroPage, 3)),
        0x94 => Some((Operation::Sty, AddressingMode::ZeroPageX, 4)),
        0x8C => Some((Operation::Sty, AddressingMode::Absolute, 4)),
        0xAA => Some((Operation::Tax, AddressingMode::Implicit, 2)),
        0x8A => Some((Operation::Txa, AddressingMode::Implicit, 2)),
        0xA8 => Some((Operation::Tay, AddressingMode::Implicit, 2)),
        0x98 => Some((Operation::Tya, AddressingMode::Implicit, 2)),
        0x69 => Some((Operation::Adc, AddressingMode::Immediate, 2)),
        0x65 => Some((Operation::Adc, AddressingMode::ZeroPage, 3)),
        0x75 => Some((Operation::Adc, AddressingMode::ZeroPageX, 4)),
        0x6D => Some((Operation::Adc, AddressingMode::Absolute, 4)),
        0x7D => Some((Operation::Adc, AddressingMode::AbsoluteX, 4)),
        0x79 => Some((Operation::Adc, AddressingMode::AbsoluteY, 4)),
        0x61 => Some((Operation::Adc, AddressingMode::IndirectX, 6)),
        0x71 => Some((Operation::Adc, AddressingMode::IndirectY, 5)),
        0xE9 => Some((Operation::Sbc, AddressingMode::Immediate, 2)),
        0xE5 => Some((Operation::Sbc, AddressingMode::ZeroPage, 3)),
        0xF5 => Some((Operation::Sbc, AddressingMode::ZeroPageX, 4)),
        0xED => Some((Operation::Sbc, AddressingMode::Absolute, 4)),
        0xFD => Some((Operation::Sbc, AddressingMode::AbsoluteX, 4)),
        0xF9 => Some((Operation::Sbc, AddressingMode::AbsoluteY, 4)),
        0xE1 => Some((Operation::Sbc, AddressingMode::IndirectX, 6)),
        0xF1 => Some((Operation::Sbc, AddressingMode::IndirectY, 5)),
        0xE6 => Some((Operation::Inc, AddressingMode::ZeroPage, 5)),
        0xF6 => Some((Operation::Inc, AddressingMode::ZeroPageX, 6)),
        0xEE => Some((Operation::Inc, AddressingMode::Absolute, 6)),
        0xFE => Some((Operation::Inc, AddressingMode::AbsoluteX, 7)),
        0xC6 => Some((Operation::Dec, AddressingMode::ZeroPage, 5)),
        0xD6 => Some((Operation::Dec, AddressingMode::ZeroPageX, 6)),
        0xCE => Some((Operation::Dec, AddressingMode::Absolute, 6)),
        0xDE => Some((Operation::Dec, AddressingMode::AbsoluteX, 7)),
        0xCA => Some((Operation::Dex, AddressingMode::Implicit, 2)),
        0xE8 => Some((Operation::Inx, AddressingMode::Implicit, 2)),
        0xC8 => Some((Operation::Iny, AddressingMode::Implicit, 2)),
        0x88 => Some((Operation::Dey, AddressingMode::Implicit, 2)),
        0x0A => Some((Operation::Asl, AddressingMode::Accumulator, 2)),
        0x06 => Some((Operation::Asl, AddressingMode::ZeroPage, 5)),
        0x16 => Some((Operation::Asl, AddressingMode::ZeroPageX, 6)),
        0x0E => Some((Operation::Asl, AddressingMode::Absolute, 6)),
        0x1E => Some((Operation::Asl, AddressingMode::AbsoluteX, 7)),
        0x4A => Some((Operation::Lsr, AddressingMode::Accumulator, 2)),
        0x46 => Some((Operation::Lsr, AddressingMode::ZeroPage, 5)),
        0x56 => Some((Operation::Lsr, AddressingMode::ZeroPageX, 6)),
        0x4E => Some((Operation::Lsr, AddressingMode::Absolute, 6)),
        0x5E => Some((Operation::Lsr, AddressingMode::AbsoluteX, 7)),
        0x2A => Some((Operation::Rol, AddressingMode::Accumulator, 2)),
        0x26 => Some((Operation::Rol, AddressingMode::ZeroPage, 5)),
        0x36 => Some((Operation::Rol, AddressingMode::ZeroPageX, 6)),
        0x2E => Some((Operation::Rol, AddressingMode::Absolute, 6)),
        0x3E => Some((Operation::Rol, AddressingMode::AbsoluteX, 7)),
        0x6A => Some((Operation::Ror, AddressingMode::Accumulator, 2)),
        0x66 => Some((Operation::Ror, AddressingMode::ZeroPage, 5)),
        0x76 => Some((Operation::Ror, AddressingMode::ZeroPageX, 6)),
        0x6E => Some((Operation::Ror, AddressingMode::Absolute, 6)),
        0x7E => Some((Operation::Ror, AddressingMode::AbsoluteX, 7)),
        0x29 => Some((Operation::And, AddressingMode::Immediate, 2)),
        0x25 => Some((Operation::And, AddressingMode::ZeroPage, 3)),
        0x35 => Some((Operation::And, AddressingMode::ZeroPageX, 4)),
        0x2D => Some((Operation::And, AddressingMode::Absolute, 4)),
        0x3D => Some((Operation::And, AddressingMode::AbsoluteX, 4)),
        0x39 => Some((Operation::And, AddressingMode::AbsoluteY, 4)),
        0x21 => Some((Operation::And, AddressingMode::IndirectX, 6)),
        0x31 => Some((Operation::And, AddressingMode::IndirectY, 5)),
        0x09 => Some((Operation::Ora, AddressingMode::Immediate, 2)),
        0x05 => Some((Operation::Ora, AddressingMode::ZeroPage, 3)),
        0x15 => Some((Operation::Ora, AddressingMode::ZeroPageX, 4)),
        0x0D => Some((Operation::Ora, AddressingMode::Absolute, 4)),
        0x1D => Some((Operation::Ora, AddressingMode::AbsoluteX, 4)),
        0x19 => Some((Operation::Ora, AddressingMode::AbsoluteY, 4)),
        0x01 => Some((Operation::Ora, AddressingMode::IndirectX, 6)),
        0x11 => Some((Operation::Ora, AddressingMode::IndirectY, 5)),
        0x49 => Some((Operation::Eor, AddressingMode::Immediate, 2)),
        0x45 => Some((Operation::Eor, AddressingMode::ZeroPage, 3)),
        0x55 => Some((Operation::Eor, AddressingMode::ZeroPageX, 4)),
        0x4D => Some((Operation::Eor, AddressingMode::Absolute, 4)),
        0x5D => Some((Operation::Eor, AddressingMode::AbsoluteX, 4)),
        0x59 => Some((Operation::Eor, AddressingMode::AbsoluteY, 4)),
        0x41 => Some((Operation::Eor, AddressingMode::IndirectX, 6)),
        0x51 => Some((Operation::Eor, AddressingMode::IndirectY, 5)),
        0x00 => Some((Operation::Brk, AddressingMode::Implicit, 7)),
        _ => None,
    }
}

/// Every entry of the table pairs an operation with a mode it accepts.
pub proof fn lemma_decode_accepts(opcode: u8)
    ensures
        decode(opcode) matches Some((op, mode, _)) ==> op.accepts(mode),
{
}

/// Executable form of `decode`.
fn decode_opcode(opcode: u8) -> (r: Option<(Operation, AddressingMode, u8)>)
    ensures
        r == decode(opcode),
{
    match opcode {
        0xA9 => Some((Operation::Lda, AddressingMode::Immediate, 2)),
        0xA5 => Some((Operation::Lda, AddressingMode::ZeroPage, 3)),
        0xB5 => Some((Operation::Lda, AddressingMode::ZeroPageX, 4)),
        0xAD => Some((Operation::Lda, AddressingMode::Absolute, 4)),
        0xBD => Some((Operation::Lda, AddressingMode::AbsoluteX, 4)),
        0xB9 => Some((Operation::Lda, AddressingMode::AbsoluteY, 4)),
        0xA1 => Some((Operation::Lda, AddressingMode::IndirectX, 6)),
        0xB1 => Some((Operation::Lda, AddressingMode::IndirectY, 5)),
        0x85 => Some((Operation::Sta, AddressingMode::ZeroPage, 3)),
        0x95 => Some((Operation::Sta, AddressingMode::ZeroPageX, 4)),
        0x8D => Some((Operation::Sta, AddressingMode::Absolute, 4)),
        0x9D => Some((Operation::Sta, AddressingMode::AbsoluteX, 5)),
        0x99 => Some((Operation::Sta, AddressingMode::AbsoluteY, 5)),
        0x81 => Some((Operation::Sta, AddressingMode::IndirectX, 6)),
        0x91 => Some((Operation::Sta, AddressingMode::IndirectY, 6)),
        0xA2 => Some((Operation::Ldx, AddressingMode::Immediate, 2)),
        0xA6 => Some((Operation::Ldx, AddressingMode::ZeroPage, 3)),
        0xB6 => Some((Operation::Ldx, AddressingMode::ZeroPageY, 4)),
        0xAE => Some((Operation::Ldx, AddressingMode::Absolute, 4)),
        0xBE => Some((Operation::Ldx, AddressingMode::AbsoluteY, 4)),
        0x86 => Some((Operation::Stx, AddressingMode::ZeroPage, 3)),
        0x96 => Some((Operation::Stx, AddressingMode::ZeroPageY, 4)),
        0x8E => Some((Operation::Stx, AddressingMode::Absolute, 4)),
        0xA0 => Some((Operation::Ldy, AddressingMode::Immediate, 2)),
        0xA4 => Some((Operation::Ldy, AddressingMode::ZeroPage, 3)),
        0xB4 => Some((Operation::Ldy, AddressingMode::ZeroPageX, 4)),
        0xAC => Some((Operation::Ldy, AddressingMode::Absolute, 4)),
        0xBC => Some((Operation::Ldy, AddressingMode::AbsoluteX, 4)),
        0x84 => Some((Operation::Sty, AddressingMode::ZeroPage, 3)),
        0x94 => Some((Operation::Sty, AddressingMode::ZeroPageX, 4)),
        0x8C => Some((Operation::Sty, AddressingMode::Absolute, 4)),
        0xAA => Some((Operation::Tax, AddressingMode::Implicit, 2)),
        0x8A => Some((Operation::Txa, AddressingMode::Implicit, 2)),
        0xA8 => Some((Operation::Tay, AddressingMode::Implicit, 2)),
        0x98 => Some((Operation::Tya, AddressingMode::Implicit, 2)),
        0x69 => Some((Operation::Adc, AddressingMode::Immediate, 2)),
        0x65 => Some((Operation::Adc, AddressingMode::ZeroPage, 3)),
        0x75 => Some((Operation::Adc, AddressingMode::ZeroPageX, 4)),
        0x6D => Some((Operation::Adc, AddressingMode::Absolute, 4)),
        0x7D => Some((Operation::Adc, AddressingMode::AbsoluteX, 4)),
        0x79 => Some((Operation::Adc, AddressingMode::AbsoluteY, 4)),
        0x61 => Some((Operation::Adc, AddressingMode::IndirectX, 6)),
        0x71 => Some((Operation::Adc, AddressingMode::IndirectY, 5)),
        0xE9 => Some((Operation::Sbc, AddressingMode::Immediate, 2)),
        0xE5 => Some((Operation::Sbc, AddressingMode::ZeroPage, 3)),
        0xF5 => Some((Operation::Sbc, AddressingMode::ZeroPageX, 4)),
        0xED => Some((Operation::Sbc, AddressingMode::Absolute, 4)),
        0xFD => Some((Operation::Sbc, AddressingMode::AbsoluteX, 4)),
        0xF9 => Some((Operation::Sbc, AddressingMode::AbsoluteY, 4)),
        0xE1 => Some((Operation::Sbc, AddressingMode::IndirectX, 6)),
        0xF1 => Some((Operation::Sbc, AddressingMode::IndirectY, 5)),
        0xE6 => Some((Operation::Inc, AddressingMode::ZeroPage, 5)),
        0xF6 => Some((Operation::Inc, AddressingMode::ZeroPageX, 6)),
        0xEE => Some((Operation::Inc, AddressingMode::Absolute, 6)),
        0xFE => Some((Operation::Inc, AddressingMode::AbsoluteX, 7)),
        0xC6 => Some((Operation::Dec, AddressingMode::ZeroPage, 5)),
        0xD6 => Some((Operation::Dec, AddressingMode::ZeroPageX, 6)),
        0xCE => Some((Operation::Dec, AddressingMode::Absolute, 6)),
        0xDE => Some((Operation::Dec, AddressingMode::AbsoluteX, 7)),
        0xCA => Some((Operation::Dex, AddressingMode::Implicit, 2)),
        0xE8 => Some((Operation::Inx, AddressingMode::Implicit, 2)),
        0xC8 => Some((Operation::Iny, AddressingMode::Implicit, 2)),
        0x88 => Some((Operation::Dey, AddressingMode::Implicit, 2)),
        0x0A => Some((Operation::Asl, AddressingMode::Accumulator, 2)),
        0x06 => Some((Operation::Asl, AddressingMode::ZeroPage, 5)),
        0x16 => Some((Operation::Asl, AddressingMode::ZeroPageX, 6)),
        0x0E => Some((Operation::Asl, AddressingMode::Absolute, 6)),
        0x1E => Some((Operation::Asl, AddressingMode::AbsoluteX, 7)),
        0x4A => Some((Operation::Lsr, AddressingMode::Accumulator, 2)),
        0x46 => Some((Operation::Lsr, AddressingMode::ZeroPage, 5)),
        0x56 => Some((Operation::Lsr, AddressingMode::ZeroPageX, 6)),
        0x4E => Some((Operation::Lsr, AddressingMode::Absolute, 6)),
        0x5E => Some((Operation::Lsr, AddressingMode::AbsoluteX, 7)),
        0x2A => Some((Operation::Rol, AddressingMode::Accumulator, 2)),
        0x26 => Some((Operation::Rol, AddressingMode::ZeroPage, 5)),
        0x36 => Some((Operation::Rol, AddressingMode::ZeroPageX, 6)),
        0x2E => Some((Operation::Rol, AddressingMode::Absolute, 6)),
        0x3E => Some((Operation::Rol, AddressingMode::AbsoluteX, 7)),
        0x6A => Some((Operation::Ror, AddressingMode::Accumulator, 2)),
        0x66 => Some((Operation::Ror, AddressingMode::ZeroPage, 5)),
        0x76 => Some((Operation::Ror, AddressingMode::ZeroPageX, 6)),
        0x6E => Some((Operation::Ror, AddressingMode::Absolute, 6)),
        0x7E => Some((Operation::Ror, AddressingMode::AbsoluteX, 7)),
        0x29 => Some((Operation::And, AddressingMode::Immediate, 2)),
        0x25 => Some((Operation::And, AddressingMode::ZeroPage, 3)),
        0x35 => Some((Operation::And, AddressingMode::ZeroPageX, 4)),
        0x2D => Some((Operation::And, AddressingMode::Absolute, 4)),
        0x3D => Some((Operation::And, AddressingMode::AbsoluteX, 4)),
        0x39 => Some((Operation::And, AddressingMode::AbsoluteY, 4)),
        0x21 => Some((Operation::And, AddressingMode::IndirectX, 6)),
        0x31 => Some((Operation::And, AddressingMode::IndirectY, 5)),
        0x09 => Some((Operation::Ora, AddressingMode::Immediate, 2)),
        0x05 => Some((Operation::Ora, AddressingMode::ZeroPage, 3)),
        0x15 => Some((Operation::Ora, AddressingMode::ZeroPageX, 4)),
        0x0D => Some((Operation::Ora, AddressingMode::Absolute, 4)),
        0x1D => Some((Operation::Ora, AddressingMode::AbsoluteX, 4)),
        0x19 => Some((Operation::Ora, AddressingMode::AbsoluteY, 4)),
        0x01 => Some((Operation::Ora, AddressingMode::IndirectX, 6)),
        0x11 => Some((Operation::Ora, AddressingMode::IndirectY, 5)),
        0x49 => Some((Operation::Eor, AddressingMode::Immediate, 2)),
        0x45 => Some((Operation::Eor, AddressingMode::ZeroPage, 3)),
        0x55 => Some((Operation::Eor, AddressingMode::ZeroPageX, 4)),
        0x4D => Some((Operation::Eor, AddressingMode::Absolute, 4)),
        0x5D => Some((Operation::Eor, AddressingMode::AbsoluteX, 4)),
        0x59 => Some((Operation::Eor, AddressingMode::AbsoluteY, 4)),
        0x41 => Some((Operation::Eor, AddressingMode::IndirectX, 6)),
        0x51 => Some((Operation::Eor, AddressingMode::IndirectY, 5)),
        0x00 => Some((Operation::Brk, AddressingMode::Implicit, 7)),
        _ => None,
    }
}

/// Descriptor of one opcode, as the opcode table lists it.
#[derive(Clone, Copy, Debug, PartialEq, Eq)]
pub struct Instruction {
    pub opcode: u8,
    pub mnemonic: &'static str,
    pub bytes: u8,
    pub cycles: u8,
    pub addressing_mode: AddressingMode,
}

impl Instruction {
    pub fn new(
        opcode: u8,
        mnemonic: &'static str,
        bytes: u8,
        cycles: u8,
        addressing_mode: AddressingMode,
    ) -> (r: Self)
        ensures
            r.opcode == opcode,
            r.mnemonic == mnemonic,
            r.bytes == bytes,
            r.cycles == cycles,
            r.addressing_mode == addressing_mode,
    {
        Instruction { opcode, mnemonic, bytes, cycles, addressing_mode }
    }
}

/// A table entry: the descriptor of an opcode with the operation it dispatches to.
#[derive(Clone, Copy, Debug, PartialEq, Eq)]
pub struct Descriptor {
    pub operation: Operation,
    pub instruction: Instruction,
}

/// Whether `d` is exactly what the table holds for `opcode`.
pub open spec fn describes(d: Option<Descriptor>, opcode: u8) -> bool {
    match (d, decode(opcode)) {
        (None, None) => true,
        (Some(d), Some((op, mode, cycles))) => {
            &&& d.operation == op
            &&& d.instruction.opcode == opcode
            &&& d.instruction.mnemonic == op.spec_mnemonic()
            &&& d.instruction.bytes == mode.spec_length()
            &&& d.instruction.cycles == cycles
            &&& d.instruction.addressing_mode == mode
        },
        _ => false,
    }
}

/// Builds the table entry of one opcode.
fn describe(opcode: u8) -> (r: Option<Descriptor>)
    ensures
        describes(r, opcode),
{
    match decode_opcode(opcode) {
        Some((operation, mode, cycles)) => Some(
            Descriptor {
                operation,
                instruction: Instruction::new(
                    opcode,
                    operation.mnemonic(),
                    mode.length(),
                    cycles,
                    mode,
                ),
            },
        ),
        None => None,
    }
}

/// The opcode table, built once and read by opcode in constant time.
pub struct OpcodeTable {
    entries: Vec<Option<Descriptor>>,
}

impl OpcodeTable {
    #[verifier::type_invariant]
    spec fn complete(self) -> bool {
        &&& self.entries@.len() == 256
        &&& forall|i: int| 0 <= i < 256 ==> describes(#[trigger] self.entries@[i], i as u8)
    }

    /// What the table holds for `opcode`.
    pub closed spec fn entry(self, opcode: u8) -> Option<Descriptor> {
        self.entries@[opcode as int]
    }

    /// Builds the table: one entry per opcode, as `decode` lists them.
    pub fn new() -> (r: Self)
        ensures
            forall|opcode: u8| describes(#[trigger] r.entry(opcode), opcode),
    {
        let mut entries: Vec<Option<Descriptor>> = Vec::new();
        let mut i: u16 = 0;
        while i < 256
            invariant
                i <= 256,
                entries@.len() == i,
                forall|j: int| 0 <= j < i ==> describes(#[trigger] entries@[j], j as u8),
            decreases 256 - i,
        {
            let d = describe(i as u8);
            entries.push(d);
            i = i + 1;
        }
        let r = OpcodeTable { entries };
        assert forall|opcode: u8| describes(#[trigger] r.entry(opcode), opcode) by {
            assert(describes(r.entries@[opcode as int], (opcode as int) as u8));
        }
        r
    }

    /// The table entry of `opcode`, with the operation it dispatches to.
    pub fn descriptor(&self, opcode: u8) -> (r: Option<Descriptor>)
        ensures
            r == self.entry(opcode),
            describes(r, opcode),
    {
        proof {
            use_type_invariant(self);
        }
        self.entries[opcode as usize]
    }

    /// The descriptor of `opcode`, or `None` when the opcode is not in the table.
    pub fn get(&self, opcode: u8) -> (r: Option<Instruction>)
        ensures
            r == match self.entry(opcode) {
                Some(d) => Some(d.instruction),
                None => None,
            },
            r is None <==> decode(opcode) is None,
    {
        match self.descriptor(opcode) {
            Some(d) => Some(d.instruction),
            None => None,
        }
    }
}

} // verus!
