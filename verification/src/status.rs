//! The processor status register: seven independent one-bit flags packed
//! into a byte, and the flag updates that follow arithmetic, compare and
//! load operations.

use vstd::prelude::*;

verus! {

/// One of the seven status flags.
#[derive(Clone, Copy, Debug, PartialEq, Eq, Structural)]
pub enum Flag {
    Carry,
    Zero,
    InterruptDisable,
    Decimal,
    Break,
    Overflow,
    Negative,
}

impl Flag {
    /// The bit that holds this flag in the packed status byte.
    pub open spec fn spec_mask(self) -> u8 {
        match self {
            Flag::Carry => 0x01,
            Flag::Zero => 0x02,
            Flag::InterruptDisable => 0x04,
            Flag::Decimal => 0x08,
            Flag::Break => 0x10,
            Flag::Overflow => 0x40,
            Flag::Negative => 0x80,
        }
    }

    /// The bit that holds this flag in the packed status byte.
    #[verifier::when_used_as_spec(spec_mask)]
    pub fn mask(self) -> (m: u8)
        ensures
            m == self.spec_mask(),
    {
        match self {
            Flag::Carry => 0x01,
            Flag::Zero => 0x02,
            Flag::InterruptDisable => 0x04,
            Flag::Decimal => 0x08,
            Flag::Break => 0x10,
            Flag::Overflow => 0x40,
            Flag::Negative => 0x80,
        }
    }
}

/// The mathematical model of the status register: one truth value per flag.
pub struct Flags {
    pub carry: bool,
    pub zero: bool,
    pub interrupt_disable: bool,
    pub decimal: bool,
    pub brk: bool,
    pub overflow: bool,
    pub negative: bool,
}

/// The value of a byte read as a two's-complement signed number.
pub open spec fn signed(value: u8) -> int {
    if value >= 0x80 {
        value - 0x100
    } else {
        value as int
    }
}

/// The 9-bit intermediate sum of an add-with-carry.
pub open spec fn adc_sum(register: u8, operand: u8, carry: bool) -> int {
    register + operand + if carry { 1int } else { 0int }
}

/// The 8-bit result of an add-with-carry: the sum truncated to a byte.
pub open spec fn adc_result(register: u8, operand: u8, carry: bool) -> u8 {
    (adc_sum(register, operand, carry) % 0x100) as u8
}

/// The 8-bit difference that a compare forms: `register - operand`,
/// wrapping modulo 256.
pub open spec fn compare_difference(register: u8, operand: u8) -> u8 {
    ((register - operand) % 0x100) as u8
}

/// The one's complement of a byte.
pub open spec fn complement(value: u8) -> u8 {
    (0xff - value) as u8
}

/// The 8-bit result of a subtract-with-carry: the processor adds the
/// complement of the operand, so that a clear Carry borrows one.
pub open spec fn sbc_result(register: u8, operand: u8, carry: bool) -> u8 {
    adc_result(register, complement(operand), carry)
}

/// `value` shifted left by one bit: bit 7 falls out, bit 0 is clear.
pub open spec fn shifted_left(value: u8) -> u8 {
    ((value * 2) % 0x100) as u8
}

/// `value` shifted right by one bit: bit 0 falls out, bit 7 is clear.
pub open spec fn shifted_right(value: u8) -> u8 {
    value / 2
}

/// `value` rotated left by one bit through Carry: bit 7 falls out, and the
/// incoming Carry becomes bit 0.
pub open spec fn rotated_left(value: u8, carry: bool) -> u8 {
    (shifted_left(value) + if carry { 1int } else { 0int }) as u8
}

/// `value` rotated right by one bit through Carry: bit 0 falls out, and the
/// incoming Carry becomes bit 7.
pub open spec fn rotated_right(value: u8, carry: bool) -> u8 {
    (shifted_right(value) + if carry { 0x80int } else { 0int }) as u8
}

impl Flags {
    /// No flag set.
    pub open spec fn none() -> Flags {
        Flags {
            carry: false,
            zero: false,
            interrupt_disable: false,
            decimal: false,
            brk: false,
            overflow: false,
            negative: false,
        }
    }

    /// The flags that a packed status byte holds. Bit 5 holds no flag.
    pub open spec fn from_bits(bits: u8) -> Flags {
        Flags {
            carry: bits % 2 == 1,
            zero: (bits / 2) % 2 == 1,
            interrupt_disable: (bits / 4) % 2 == 1,
            decimal: (bits / 8) % 2 == 1,
            brk: (bits / 16) % 2 == 1,
            overflow: (bits / 64) % 2 == 1,
            negative: bits / 128 == 1,
        }
    }

    /// The packed status byte: each set flag contributes its bit, and bit 5
    /// is clear.
    pub open spec fn bits(self) -> u8 {
        ((if self.carry { 0x01int } else { 0 })
            + (if self.zero { 0x02int } else { 0 })
            + (if self.interrupt_disable { 0x04int } else { 0 })
            + (if self.decimal { 0x08int } else { 0 })
            + (if self.brk { 0x10int } else { 0 })
            + (if self.overflow { 0x40int } else { 0 })
            + (if self.negative { 0x80int } else { 0 })) as u8
    }

    /// Whether `flag` is set.
    pub open spec fn get(self, flag: Flag) -> bool {
        match flag {
            Flag::Carry => self.carry,
            Flag::Zero => self.zero,
            Flag::InterruptDisable => self.interrupt_disable,
            Flag::Decimal => self.decimal,
            Flag::Break => self.brk,
            Flag::Overflow => self.overflow,
            Flag::Negative => self.negative,
        }
    }

    /// These flags with `flag` set to `value` and every other flag as it was.
    pub open spec fn with(self, flag: Flag, value: bool) -> Flags {
        match flag {
            Flag::Carry => Flags { carry: value, ..self },
            Flag::Zero => Flags { zero: value, ..self },
            Flag::InterruptDisable => Flags { interrupt_disable: value, ..self },
            Flag::Decimal => Flags { decimal: value, ..self },
            Flag::Break => Flags { brk: value, ..self },
            Flag::Overflow => Flags { overflow: value, ..self },
            Flag::Negative => Flags { negative: value, ..self },
        }
    }

    /// The flags after a load or transfer of `value`: Zero tells whether the
    /// value is zero, Negative is its bit 7.
    pub open spec fn with_zero_negative(self, value: u8) -> Flags {
        Flags { zero: value == 0, negative: value >= 0x80, ..self }
    }

    /// The flags after comparing `register` with `operand`: Carry tells
    /// whether `register >= operand`, Zero and Negative describe the wrapped
    /// difference.
    pub open spec fn after_compare(self, register: u8, operand: u8) -> Flags {
        Flags { carry: register >= operand, ..self }.with_zero_negative(
            compare_difference(register, operand),
        )
    }

    /// The flags after adding `operand` and the current Carry to `register`:
    /// Carry is bit 8 of the sum, Overflow tells whether both operands have
    /// the same sign and the truncated result has the other one, Zero and
    /// Negative describe the truncated result.
    pub open spec fn after_add(self, register: u8, operand: u8) -> Flags {
        let result = adc_result(register, operand, self.carry);
        Flags {
            carry: adc_sum(register, operand, self.carry) >= 0x100,
            overflow: (register >= 0x80) == (operand >= 0x80) && (result >= 0x80) != (register
                >= 0x80),
            ..self
        }.with_zero_negative(result)
    }

    /// The flags after subtracting `operand` and the borrow from
    /// `register`: those of adding the complement of `operand`. Carry is
    /// set where the subtraction needed no borrow.
    pub open spec fn after_subtract(self, register: u8, operand: u8) -> Flags {
        self.after_add(register, complement(operand))
    }

    /// The flags after testing the bits of `operand` against `register`:
    /// Zero tells whether the two have no set bit in common, Overflow and
    /// Negative are bits 6 and 7 of `operand`.
    pub open spec fn after_bit_test(self, register: u8, operand: u8) -> Flags {
        Flags {
            zero: register & operand == 0,
            overflow: (operand / 64) % 2 == 1,
            negative: operand >= 0x80,
            ..self
        }
    }

    /// The flags after shifting `value` left: Carry is the bit that fell
    /// out, Zero and Negative describe the result.
    pub open spec fn after_shift_left(self, value: u8) -> Flags {
        Flags { carry: value >= 0x80, ..self }.with_zero_negative(shifted_left(value))
    }

    /// The flags after shifting `value` right: Carry is the bit that fell
    /// out, Zero and Negative describe the result.
    pub open spec fn after_shift_right(self, value: u8) -> Flags {
        Flags { carry: value % 2 == 1, ..self }.with_zero_negative(shifted_right(value))
    }

    /// The flags after rotating `value` left through Carry: Carry is the bit
    /// that fell out, Zero and Negative describe the result.
    pub open spec fn after_rotate_left(self, value: u8) -> Flags {
        Flags { carry: value >= 0x80, ..self }.with_zero_negative(
            rotated_left(value, self.carry),
        )
    }

    /// The flags after rotating `value` right through Carry: Carry is the
    /// bit that fell out, Zero and Negative describe the result.
    pub open spec fn after_rotate_right(self, value: u8) -> Flags {
        Flags { carry: value % 2 == 1, ..self }.with_zero_negative(
            rotated_right(value, self.carry),
        )
    }

    /// The byte that pushing the flags puts on the stack: the packed status
    /// byte with the Break bit and the unused bit set.
    pub open spec fn pushed_bits(self) -> u8 {
        (Flags { brk: true, ..self }.bits() + 0x20) as u8
    }

    /// The flags that pulling the byte `bits` from the stack gives: each
    /// flag as the byte holds it, but Break clear.
    pub open spec fn pulled(bits: u8) -> Flags {
        Flags { brk: false, ..Flags::from_bits(bits) }
    }
}

/// The status register: the seven flags packed into one byte.
///
/// The bits are, from bit 0 upwards: Carry, Zero, InterruptDisable, Decimal,
/// Break, an unused bit that is always clear, Overflow and Negative.
#[derive(Clone, Copy, Debug)]
pub struct Status {
    bits: u8,
}

proof fn lemma_unpack(b: u8)
    by (bit_vector)
    ensures
        (b & 0x01 != 0) == (b % 2 == 1),
        (b & 0x02 != 0) == ((b / 2) % 2 == 1),
        (b & 0x04 != 0) == ((b / 4) % 2 == 1),
        (b & 0x08 != 0) == ((b / 8) % 2 == 1),
        (b & 0x10 != 0) == ((b / 16) % 2 == 1),
        (b & 0x40 != 0) == ((b / 64) % 2 == 1),
        (b & 0x80 != 0) == (b / 128 == 1),
        (b & 0xdf) & 0x20 == 0,
        (b & 0xdf) & 0x01 == b & 0x01,
        (b & 0xdf) & 0x02 == b & 0x02,
        (b & 0xdf) & 0x04 == b & 0x04,
        (b & 0xdf) & 0x08 == b & 0x08,
        (b & 0xdf) & 0x10 == b & 0x10,
        (b & 0xdf) & 0x40 == b & 0x40,
        (b & 0xdf) & 0x80 == b & 0x80,
{
}

proof fn lemma_pack(b: u8)
    by (bit_vector)
    requires
        b & 0x20 == 0,
    ensures
        b == (if b & 0x01 != 0 { 0x01u8 } else { 0 }) + (if b & 0x02 != 0 { 0x02u8 } else { 0 })
            + (if b & 0x04 != 0 { 0x04u8 } else { 0 }) + (if b & 0x08 != 0 { 0x08u8 } else { 0 })
            + (if b & 0x10 != 0 { 0x10u8 } else { 0 }) + (if b & 0x40 != 0 { 0x40u8 } else { 0 })
            + (if b & 0x80 != 0 { 0x80u8 } else { 0 }),
{
}

proof fn lemma_set_bit(b: u8, m: u8)
    by (bit_vector)
    requires
        m == 0x01 || m == 0x02 || m == 0x04 || m == 0x08 || m == 0x10 || m == 0x40 || m == 0x80,
    ensures
        (b | m) & m != 0,
        (b & !m) & m == 0,
        (b | m) & 0x20 == b & 0x20,
        (b & !m) & 0x20 == b & 0x20,
        m != 0x01 ==> (b | m) & 0x01 == b & 0x01 && (b & !m) & 0x01 == b & 0x01,
        m != 0x02 ==> (b | m) & 0x02 == b & 0x02 && (b & !m) & 0x02 == b & 0x02,
        m != 0x04 ==> (b | m) & 0x04 == b & 0x04 && (b & !m) & 0x04 == b & 0x04,
        m != 0x08 ==> (b | m) & 0x08 == b & 0x08 && (b & !m) & 0x08 == b & 0x08,
        m != 0x10 ==> (b | m) & 0x10 == b & 0x10 && (b & !m) & 0x10 == b & 0x10,
        m != 0x40 ==> (b | m) & 0x40 == b & 0x40 && (b & !m) & 0x40 == b & 0x40,
        m != 0x80 ==> (b | m) & 0x80 == b & 0x80 && (b & !m) & 0x80 == b & 0x80,
{
}

proof fn lemma_zero_negative_bits(b: u8, value: u8, after: u8)
    by (bit_vector)
    requires
        after == (b & 0x7d) | (if value == 0 { 0x02u8 } else { 0 }) | (value & 0x80),
    ensures
        (after & 0x02 != 0) == (value == 0),
        (after & 0x80 != 0) == (value >= 0x80),
        (value & 0x80 != 0) == (value >= 0x80),
        after & 0x01 == b & 0x01,
        after & 0x04 == b & 0x04,
        after & 0x08 == b & 0x08,
        after & 0x10 == b & 0x10,
        after & 0x20 == b & 0x20,
        after & 0x40 == b & 0x40,
{
}

proof fn lemma_add_bits(register: u8, operand: u8, carry_in: u16, sum: u16, result: u8)
    by (bit_vector)
    requires
        carry_in <= 1,
        sum == register as u16 + operand as u16 + carry_in,
        result == sum as u8,
    ensures
        result == sum % 0x100,
        (sum > 0xff) == (sum >= 0x100),
        ((register ^ result) & (operand ^ result) & 0x80 != 0) == ((register >= 0x80) == (operand
            >= 0x80) && (result >= 0x80) != (register >= 0x80)),
{
}

proof fn lemma_left_bits(value: u8, carry_in: u8)
    by (bit_vector)
    requires
        carry_in <= 1,
    ensures
        value << 1 == (value * 2) % 0x100,
        (value & 0x80 != 0) == (value >= 0x80),
        (value << 1) | carry_in == (value * 2) % 0x100 + carry_in,
{
}

proof fn lemma_right_bits(value: u8, carry_in: u8)
    by (bit_vector)
    requires
        carry_in <= 1,
    ensures
        value >> 1 == value / 2,
        (value & 0x01 != 0) == (value % 2 == 1),
        (value >> 1) | (carry_in << 7) == value / 2 + 0x80 * carry_in,
{
}

proof fn lemma_pushed_bits(b: u8)
    by (bit_vector)
    requires
        b & 0x20 == 0,
    ensures
        (b | 0x30) & 0x20 != 0,
        b | 0x30 == (b | 0x10) + 0x20,
        (b | 0x10) & 0x20 == 0,
        (b & 0xcf) & 0x20 == 0,
        (b & 0xcf) & 0x10 == 0,
        (b & 0xcf) & 0x01 == b & 0x01,
        (b & 0xcf) & 0x02 == b & 0x02,
        (b & 0xcf) & 0x04 == b & 0x04,
        (b & 0xcf) & 0x08 == b & 0x08,
        (b & 0xcf) & 0x40 == b & 0x40,
        (b & 0xcf) & 0x80 == b & 0x80,
{
}

impl View for Status {
    type V = Flags;

    closed spec fn view(&self) -> Flags {
        Flags {
            carry: self.bits & 0x01 != 0,
            zero: self.bits & 0x02 != 0,
            interrupt_disable: self.bits & 0x04 != 0,
            decimal: self.bits & 0x08 != 0,
            brk: self.bits & 0x10 != 0,
            overflow: self.bits & 0x40 != 0,
            negative: self.bits & 0x80 != 0,
        }
    }
}

impl Status {
    /// Whether the unused bit of the packed byte is clear. Every status
    /// register that the program holds is well formed.
    #[verifier::type_invariant]
    pub closed spec fn well_formed(self) -> bool {
        self.bits & 0x20 == 0
    }

    /// A status register with every flag clear.
    pub fn new() -> (status: Status)
        ensures
            status@ == Flags::none(),
    {
        Status::from_bits(0)
    }

    /// Unpacks a status byte. Bit 5 of `bits` holds no flag and is dropped.
    pub fn from_bits(bits: u8) -> (status: Status)
        ensures
            status@ == Flags::from_bits(bits),
    {
        proof {
            lemma_unpack(bits);
        }
        Status { bits: bits & 0xdf }
    }

    /// The flags as a packed status byte.
    pub fn bits(&self) -> (bits: u8)
        ensures
            bits == self@.bits(),
    {
        proof {
            use_type_invariant(self);
            lemma_pack(self.bits);
        }
        self.bits
    }

    /// Whether `flag` is set.
    pub fn contains(&self, flag: Flag) -> (set: bool)
        ensures
            set == self@.get(flag),
    {
        self.bits & flag.mask() != 0
    }

    /// Sets `flag` to `value` and leaves every other flag as it was.
    pub fn set(&mut self, flag: Flag, value: bool)
        ensures
            final(self)@ == old(self)@.with(flag, value),
    {
        proof {
            use_type_invariant(&*self);
            lemma_set_bit(self.bits, flag.mask());
        }
        if value {
            self.bits = self.bits | flag.mask();
        } else {
            self.bits = self.bits & !flag.mask();
        }
    }

    /// Records a loaded or computed `value`: Zero becomes `value == 0`,
    /// Negative becomes bit 7 of `value`, and no other flag changes.
    pub fn set_zero_negative(&mut self, value: u8)
        ensures
            final(self)@ == old(self)@.with_zero_negative(value),
            final(self)@.zero <==> value == 0,
            final(self)@.negative <==> value & 0x80 != 0,
    {
        let zero: u8 = if value == 0 { 0x02 } else { 0 };
        let after: u8 = (self.bits & 0x7d) | zero | (value & 0x80);
        proof {
            use_type_invariant(&*self);
            lemma_zero_negative_bits(self.bits, value, after);
        }
        self.bits = after;
    }

    /// Compares `register` with `operand` as the CMP, CPX and CPY
    /// instructions do: Carry becomes `register >= operand`, Zero and
    /// Negative describe the difference `register - operand` taken modulo
    /// 256, and no other flag changes.
    pub fn compare(&mut self, register: u8, operand: u8)
        ensures
            final(self)@ == old(self)@.after_compare(register, operand),
    {
        let difference: u8 = register.wrapping_sub(operand);
        self.set(Flag::Carry, register >= operand);
        self.set_zero_negative(difference);
    }

    /// Adds `operand` and the Carry flag to `register` and returns the sum
    /// truncated to a byte. Carry becomes bit 8 of the sum, Overflow tells
    /// whether the addition overflowed as a signed one, Zero and Negative
    /// describe the returned byte, and no other flag changes. The addition
    /// is binary whatever the Decimal flag holds.
    pub fn add_with_carry(&mut self, register: u8, operand: u8) -> (result: u8)
        ensures
            result == adc_result(register, operand, old(self)@.carry),
            final(self)@ == old(self)@.after_add(register, operand),
    {
        let carry_in: u16 = if self.contains(Flag::Carry) { 1 } else { 0 };
        let sum: u16 = register as u16 + operand as u16 + carry_in;
        let result: u8 = sum as u8;
        proof {
            lemma_add_bits(register, operand, carry_in, sum, result);
        }
        self.set(Flag::Carry, sum > 0xff);
        self.set(Flag::Overflow, (register ^ result) & (operand ^ result) & 0x80 != 0);
        self.set_zero_negative(result);
        result
    }

    /// Subtracts `operand` and the borrow from `register` and returns the
    /// difference truncated to a byte. A clear Carry borrows one. Carry
    /// becomes set where no borrow was needed, Overflow tells whether the
    /// subtraction overflowed as a signed one, Zero and Negative describe
    /// the returned byte, and no other flag changes.
    pub fn subtract_with_carry(&mut self, register: u8, operand: u8) -> (result: u8)
        ensures
            result == sbc_result(register, operand, old(self)@.carry),
            final(self)@ == old(self)@.after_subtract(register, operand),
    {
        self.add_with_carry(register, 0xff - operand)
    }

    /// Tests the bits of `operand` against `register` as the BIT
    /// instruction does: Zero tells whether the two have no set bit in
    /// common, Overflow and Negative become bits 6 and 7 of `operand`, and
    /// no other flag changes.
    pub fn bit_test(&mut self, register: u8, operand: u8)
        ensures
            final(self)@ == old(self)@.after_bit_test(register, operand),
    {
        proof {
            lemma_unpack(operand);
        }
        self.set(Flag::Zero, register & operand == 0);
        self.set(Flag::Overflow, operand & 0x40 != 0);
        self.set(Flag::Negative, operand >= 0x80);
    }

    /// Shifts `value` left by one bit and returns the result. Carry becomes
    /// the bit that fell out, Zero and Negative describe the result.
    pub fn shift_left(&mut self, value: u8) -> (result: u8)
        ensures
            result == shifted_left(value),
            final(self)@ == old(self)@.after_shift_left(value),
    {
        proof {
            lemma_left_bits(value, 0);
        }
        let result: u8 = value << 1;
        self.set(Flag::Carry, value & 0x80 != 0);
        self.set_zero_negative(result);
        result
    }

    /// Shifts `value` right by one bit and returns the result. Carry becomes
    /// the bit that fell out, Zero and Negative describe the result.
    pub fn shift_right(&mut self, value: u8) -> (result: u8)
        ensures
            result == shifted_right(value),
            final(self)@ == old(self)@.after_shift_right(value),
    {
        proof {
            lemma_right_bits(value, 0);
        }
        let result: u8 = value >> 1;
        self.set(Flag::Carry, value & 0x01 != 0);
        self.set_zero_negative(result);
        result
    }

    /// Rotates `value` left by one bit through Carry and returns the result.
    /// Carry becomes the bit that fell out, Zero and Negative describe the
    /// result.
    pub fn rotate_left(&mut self, value: u8) -> (result: u8)
        ensures
            result == rotated_left(value, old(self)@.carry),
            final(self)@ == old(self)@.after_rotate_left(value),
    {
        let carry_in: u8 = if self.contains(Flag::Carry) { 1 } else { 0 };
        proof {
            lemma_left_bits(value, carry_in);
        }
        let result: u8 = (value << 1) | carry_in;
        self.set(Flag::Carry, value & 0x80 != 0);
        self.set_zero_negative(result);
        result
    }

    /// Rotates `value` right by one bit through Carry and returns the
    /// result. Carry becomes the bit that fell out, Zero and Negative
    /// describe the result.
    pub fn rotate_right(&mut self, value: u8) -> (result: u8)
        ensures
            result == rotated_right(value, old(self)@.carry),
            final(self)@ == old(self)@.after_rotate_right(value),
    {
        let carry_in: u8 = if self.contains(Flag::Carry) { 1 } else { 0 };
        proof {
            lemma_right_bits(value, carry_in);
        }
        let result: u8 = (value >> 1) | (carry_in << 7);
        self.set(Flag::Carry, value & 0x01 != 0);
        self.set_zero_negative(result);
        result
    }

    /// The byte that pushing the status puts on the stack: the packed
    /// status byte with the Break bit and the unused bit set.
    pub fn pushed_bits(&self) -> (bits: u8)
        ensures
            bits == self@.pushed_bits(),
    {
        proof {
            use_type_invariant(self);
            lemma_pushed_bits(self.bits);
            lemma_set_bit(self.bits, 0x10);
            lemma_pack(self.bits | 0x10);
        }
        self.bits | 0x30
    }

    /// The status that pulling the byte `bits` from the stack gives: each
    /// flag as the byte holds it, but Break clear.
    pub fn pulled(bits: u8) -> (status: Status)
        ensures
            status@ == Flags::pulled(bits),
    {
        proof {
            lemma_unpack(bits);
            lemma_pushed_bits(bits & 0xdf);
            lemma_unpack(bits & 0xdf);
        }
        Status { bits: (bits & 0xdf) & 0xcf }
    }
}

/// Two well-formed status registers that hold the same flags are the same
/// register value: the flags determine the packed byte.
pub proof fn lemma_flags_determine_status(a: Status, b: Status)
    requires
        a.well_formed(),
        b.well_formed(),
        a@ == b@,
    ensures
        a == b,
{
    lemma_pack(a.bits);
    lemma_pack(b.bits);
}

/// The Overflow flag of an addition is set exactly when the sum of the two
/// operands and the incoming carry, all read as signed numbers, lies
/// outside the range of a signed byte.
pub proof fn lemma_overflow_is_signed_overflow(flags: Flags, register: u8, operand: u8)
    ensures
        flags.after_add(register, operand).overflow <==> {
            let sum = signed(register) + signed(operand) + if flags.carry { 1int } else { 0int };
            sum < -0x80 || sum > 0x7f
        },
{
}

/// A subtraction computes `register - operand - borrow` modulo 256, where
/// a clear Carry borrows one. It sets Carry exactly where that difference
/// is not negative, and Overflow exactly where the difference of the
/// operands read as signed numbers lies outside the range of a signed byte.
pub proof fn lemma_subtract_is_difference(flags: Flags, register: u8, operand: u8)
    ensures
        ({
            let difference = register - operand - if flags.carry { 0int } else { 1int };
            let signed_difference = signed(register) - signed(operand) - if flags.carry {
                0int
            } else {
                1int
            };
            &&& sbc_result(register, operand, flags.carry) == difference % 0x100
            &&& flags.after_subtract(register, operand).carry <==> difference >= 0
            &&& flags.after_subtract(register, operand).overflow <==> (signed_difference < -0x80
                || signed_difference > 0x7f)
        }),
{
}

/// Packing flags into a byte and unpacking the byte gives the flags back.
pub proof fn lemma_bits_round_trip(flags: Flags)
    ensures
        Flags::from_bits(flags.bits()) == flags,
{
}

} // verus!
