use vstd::prelude::*;

verus! {

/// Bit pattern of the status register after a reset: only InterruptDisable
/// (bit 2) and the unused bit 5 are set.
pub const RESET_STATUS_BITS: u8 = 0b0010_0100;

/// The six named flags of the status register.
#[derive(Clone, Copy, Debug, PartialEq, Eq, Structural)]
pub enum Flag {
    Carry,
    Zero,
    InterruptDisable,
    Decimal,
    Overflow,
    Negative,
}

impl Flag {
    /// Position of the flag inside the status byte.
    pub open spec fn spec_mask(self) -> u8 {
        match self {
            Flag::Carry => 0b0000_0001,
            Flag::Zero => 0b0000_0010,
            Flag::InterruptDisable => 0b0000_0100,
            Flag::Decimal => 0b0000_1000,
            Flag::Overflow => 0b0100_0000,
            Flag::Negative => 0b1000_0000,
        }
    }

    fn mask(self) -> (r: u8)
        ensures
            r == self.spec_mask(),
    {
        match self {
            Flag::Carry => 0b0000_0001,
            Flag::Zero => 0b0000_0010,
            Flag::InterruptDisable => 0b0000_0100,
            Flag::Decimal => 0b0000_1000,
            Flag::Overflow => 0b0100_0000,
            Flag::Negative => 0b1000_0000,
        }
    }
}

/// True when bit 7 of `v` is set, i.e. `v` is negative read as two's complement.
pub open spec fn is_negative(v: u8) -> bool {
    v & 0x80 != 0
}

/// The processor status register: six named flags packed into one byte.
/// The layout of the byte is private; bits 4 and 5 carry no meaning.
#[derive(Clone, Copy, Debug, PartialEq, Eq, Structural)]
pub struct StatusFlags {
    bits: u8,
}

impl StatusFlags {
    /// Whether flag `f` is set.
    pub closed spec fn flag(self, f: Flag) -> bool {
        self.bits & f.spec_mask() != 0
    }

    /// The register with flag `f` set to `v` and every other bit kept.
    pub closed spec fn with_flag(self, f: Flag, v: bool) -> StatusFlags {
        StatusFlags {
            bits: if v {
                self.bits | f.spec_mask()
            } else {
                self.bits & !f.spec_mask()
            },
        }
    }

    /// The register after the Zero/Negative update from a result byte.
    pub open spec fn with_zero_negative(self, v: u8) -> StatusFlags {
        self.with_flag(Flag::Zero, v == 0).with_flag(Flag::Negative, is_negative(v))
    }

    /// The register value that a reset installs.
    pub closed spec fn spec_reset() -> StatusFlags {
        StatusFlags { bits: RESET_STATUS_BITS }
    }

    /// Setting one flag changes that flag and no other.
    pub broadcast proof fn lemma_flag_with_flag(self, f: Flag, g: Flag, v: bool)
        ensures
            #[trigger] self.with_flag(f, v).flag(g) == if f == g {
                v
            } else {
                self.flag(g)
            },
    {
        let b = self.bits;
        let m = f.spec_mask();
        let n = g.spec_mask();
        assert(((b | m) & n != 0) == (m == n || b & n != 0)) by (bit_vector)
            requires
                m == 1u8 || m == 2u8 || m == 4u8 || m == 8u8 || m == 64u8 || m == 128u8,
                n == 1u8 || n == 2u8 || n == 4u8 || n == 8u8 || n == 64u8 || n == 128u8,
        ;
        assert(((b & !m) & n != 0) == (m != n && b & n != 0)) by (bit_vector)
            requires
                m == 1u8 || m == 2u8 || m == 4u8 || m == 8u8 || m == 64u8 || m == 128u8,
                n == 1u8 || n == 2u8 || n == 4u8 || n == 8u8 || n == 64u8 || n == 128u8,
        ;
    }

    /// The Zero/Negative update sets Zero exactly when `v` is 0 and Negative
    /// exactly when bit 7 of `v` is set, and leaves the other flags alone.
    pub proof fn lemma_zero_negative(s: StatusFlags, v: u8)
        ensures
            s.with_zero_negative(v).flag(Flag::Zero) == (v == 0),
            s.with_zero_negative(v).flag(Flag::Negative) == is_negative(v),
            forall|f: Flag|
                f != Flag::Zero && f != Flag::Negative ==> #[trigger] s.with_zero_negative(v).flag(
                    f,
                ) == s.flag(f),
    {
        broadcast use StatusFlags::lemma_flag_with_flag;

    }

    /// After a reset only InterruptDisable is set among the named flags.
    pub proof fn lemma_reset_flags(f: Flag)
        ensures
            Self::spec_reset().flag(f) == (f == Flag::InterruptDisable),
    {
        let b = RESET_STATUS_BITS;
        assert(b & 1u8 == 0 && b & 2u8 == 0 && b & 4u8 != 0 && b & 8u8 == 0 && b & 64u8 == 0
            && b & 128u8 == 0) by (bit_vector)
            requires
                b == 0x24u8,
        ;
    }

    /// The register as a reset leaves it.
    pub fn reset_value() -> (r: StatusFlags)
        ensures
            r == Self::spec_reset(),
    {
        StatusFlags { bits: RESET_STATUS_BITS }
    }

    /// Reads flag `f`.
    pub fn get(&self, f: Flag) -> (r: bool)
        ensures
            r == self.flag(f),
    {
        self.bits & f.mask() != 0
    }

    /// Sets flag `f` to `v`, leaving every other flag as it was.
    pub fn set(&mut self, f: Flag, v: bool)
        ensures
            *final(self) == old(self).with_flag(f, v),
    {
        if v {
            self.bits = self.bits | f.mask();
        } else {
            self.bits = self.bits & !f.mask();
        }
    }
}

} // verus!
