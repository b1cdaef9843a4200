//! Limits on the input source, held in the Input Source Control Register.

use vstd::prelude::*;
use crate::field::Field;
use crate::registers::{Enumeration, Exhaustive, I2cRegister, Reg00, Reg00Field};

verus! {

/// Input voltage limit (`VINDPM`): 3.88 V to 5.08 V in steps of 0.08 V.
#[allow(non_camel_case_types)]
#[derive(Clone, Copy, Debug, PartialEq, Eq)]
pub enum InputVoltageLimit {
    VINDPM_3_88V,
    VINDPM_3_96V,
    VINDPM_4_04V,
    VINDPM_4_12V,
    VINDPM_4_20V,
    VINDPM_4_28V,
    VINDPM_4_36V,
    VINDPM_4_44V,
    VINDPM_4_52V,
    VINDPM_4_60V,
    VINDPM_4_68V,
    VINDPM_4_76V,
    VINDPM_4_84V,
    VINDPM_4_92V,
    VINDPM_5_00V,
    VINDPM_5_08V,
}

impl Enumeration for InputVoltageLimit {
    type Register = Reg00;

    open spec fn layout() -> Field<Reg00> {
        Reg00::layout(Reg00Field::Vindpm)
    }

    open spec fn code(self) -> u8 {
        match self {
            InputVoltageLimit::VINDPM_3_88V => 0b0000,
            InputVoltageLimit::VINDPM_3_96V => 0b0001,
            InputVoltageLimit::VINDPM_4_04V => 0b0010,
            InputVoltageLimit::VINDPM_4_12V => 0b0011,
            InputVoltageLimit::VINDPM_4_20V => 0b0100,
            InputVoltageLimit::VINDPM_4_28V => 0b0101,
            InputVoltageLimit::VINDPM_4_36V => 0b0110,
            InputVoltageLimit::VINDPM_4_44V => 0b0111,
            InputVoltageLimit::VINDPM_4_52V => 0b1000,
            InputVoltageLimit::VINDPM_4_60V => 0b1001,
            InputVoltageLimit::VINDPM_4_68V => 0b1010,
            InputVoltageLimit::VINDPM_4_76V => 0b1011,
            InputVoltageLimit::VINDPM_4_84V => 0b1100,
            InputVoltageLimit::VINDPM_4_92V => 0b1101,
            InputVoltageLimit::VINDPM_5_00V => 0b1110,
            InputVoltageLimit::VINDPM_5_08V => 0b1111,
        }
    }

    open spec fn decode(bits: u8) -> Option<Self> {
        match bits {
            0b0000 => Some(InputVoltageLimit::VINDPM_3_88V),
            0b0001 => Some(InputVoltageLimit::VINDPM_3_96V),
            0b0010 => Some(InputVoltageLimit::VINDPM_4_04V),
            0b0011 => Some(InputVoltageLimit::VINDPM_4_12V),
            0b0100 => Some(InputVoltageLimit::VINDPM_4_20V),
            0b0101 => Some(InputVoltageLimit::VINDPM_4_28V),
            0b0110 => Some(InputVoltageLimit::VINDPM_4_36V),
            0b0111 => Some(InputVoltageLimit::VINDPM_4_44V),
            0b1000 => Some(InputVoltageLimit::VINDPM_4_52V),
            0b1001 => Some(InputVoltageLimit::VINDPM_4_60V),
            0b1010 => Some(InputVoltageLimit::VINDPM_4_68V),
            0b1011 => Some(InputVoltageLimit::VINDPM_4_76V),
            0b1100 => Some(InputVoltageLimit::VINDPM_4_84V),
            0b1101 => Some(InputVoltageLimit::VINDPM_4_92V),
            0b1110 => Some(InputVoltageLimit::VINDPM_5_00V),
            0b1111 => Some(InputVoltageLimit::VINDPM_5_08V),
            _ => None,
        }
    }

    fn field() -> (field: Field<Reg00>) {
        Reg00::field(Reg00Field::Vindpm)
    }

    fn bits(&self) -> (bits: u8) {
        match self {
            InputVoltageLimit::VINDPM_3_88V => 0b0000,
            InputVoltageLimit::VINDPM_3_96V => 0b0001,
            InputVoltageLimit::VINDPM_4_04V => 0b0010,
            InputVoltageLimit::VINDPM_4_12V => 0b0011,
            InputVoltageLimit::VINDPM_4_20V => 0b0100,
            InputVoltageLimit::VINDPM_4_28V => 0b0101,
            InputVoltageLimit::VINDPM_4_36V => 0b0110,
            InputVoltageLimit::VINDPM_4_44V => 0b0111,
            InputVoltageLimit::VINDPM_4_52V => 0b1000,
            InputVoltageLimit::VINDPM_4_60V => 0b1001,
            InputVoltageLimit::VINDPM_4_68V => 0b1010,
            InputVoltageLimit::VINDPM_4_76V => 0b1011,
            InputVoltageLimit::VINDPM_4_84V => 0b1100,
            InputVoltageLimit::VINDPM_4_92V => 0b1101,
            InputVoltageLimit::VINDPM_5_00V => 0b1110,
            InputVoltageLimit::VINDPM_5_08V => 0b1111,
        }
    }

    fn from_bits(bits: u8) -> (value: Option<Self>) {
        match bits {
            0b0000 => Some(InputVoltageLimit::VINDPM_3_88V),
            0b0001 => Some(InputVoltageLimit::VINDPM_3_96V),
            0b0010 => Some(InputVoltageLimit::VINDPM_4_04V),
            0b0011 => Some(InputVoltageLimit::VINDPM_4_12V),
            0b0100 => Some(InputVoltageLimit::VINDPM_4_20V),
            0b0101 => Some(InputVoltageLimit::VINDPM_4_28V),
            0b0110 => Some(InputVoltageLimit::VINDPM_4_36V),
            0b0111 => Some(InputVoltageLimit::VINDPM_4_44V),
            0b1000 => Some(InputVoltageLimit::VINDPM_4_52V),
            0b1001 => Some(InputVoltageLimit::VINDPM_4_60V),
            0b1010 => Some(InputVoltageLimit::VINDPM_4_68V),
            0b1011 => Some(InputVoltageLimit::VINDPM_4_76V),
            0b1100 => Some(InputVoltageLimit::VINDPM_4_84V),
            0b1101 => Some(InputVoltageLimit::VINDPM_4_92V),
            0b1110 => Some(InputVoltageLimit::VINDPM_5_00V),
            0b1111 => Some(InputVoltageLimit::VINDPM_5_08V),
            _ => None,
        }
    }

    proof fn lemma_round_trip(self) {
        Self::layout().lemma_max_value();
    }

    proof fn lemma_decode(bits: u8) {
    }
}

impl Exhaustive for InputVoltageLimit {
    proof fn lemma_exhaustive(bits: u8) {
        Self::layout().lemma_max_value();
    }
}

/// Input current limit (`IINLIM`): 100 mA to 3000 mA.
#[allow(non_camel_case_types)]
#[derive(Clone, Copy, Debug, PartialEq, Eq)]
pub enum InputCurrentLimit {
    IINLIM_100mA,
    IINLIM_150mA,
    IINLIM_500mA,
    IINLIM_900mA,
    IINLIM_1200mA,
    IINLIM_1500mA,
    IINLIM_2000mA,
    IINLIM_3000mA,
}

impl Enumeration for InputCurrentLimit {
    type Register = Reg00;

    open spec fn layout() -> Field<Reg00> {
        Reg00::layout(Reg00Field::Iinlim)
    }

    open spec fn code(self) -> u8 {
        match self {
            InputCurrentLimit::IINLIM_100mA => 0b000,
            InputCurrentLimit::IINLIM_150mA => 0b001,
            InputCurrentLimit::IINLIM_500mA => 0b010,
            InputCurrentLimit::IINLIM_900mA => 0b011,
            InputCurrentLimit::IINLIM_1200mA => 0b100,
            InputCurrentLimit::IINLIM_1500mA => 0b101,
            InputCurrentLimit::IINLIM_2000mA => 0b110,
            InputCurrentLimit::IINLIM_3000mA => 0b111,
        }
    }

    open spec fn decode(bits: u8) -> Option<Self> {
        match bits {
            0b000 => Some(InputCurrentLimit::IINLIM_100mA),
            0b001 => Some(InputCurrentLimit::IINLIM_150mA),
            0b010 => Some(InputCurrentLimit::IINLIM_500mA),
            0b011 => Some(InputCurrentLimit::IINLIM_900mA),
            0b100 => Some(InputCurrentLimit::IINLIM_1200mA),
            0b101 => Some(InputCurrentLimit::IINLIM_1500mA),
            0b110 => Some(InputCurrentLimit::IINLIM_2000mA),
            0b111 => Some(InputCurrentLimit::IINLIM_3000mA),
            _ => None,
        }
    }

    fn field() -> (field: Field<Reg00>) {
        Reg00::field(Reg00Field::Iinlim)
    }

    fn bits(&self) -> (bits: u8) {
        match self {
            InputCurrentLimit::IINLIM_100mA => 0b000,
            InputCurrentLimit::IINLIM_150mA => 0b001,
            InputCurrentLimit::IINLIM_500mA => 0b010,
            InputCurrentLimit::IINLIM_900mA => 0b011,
            InputCurrentLimit::IINLIM_1200mA => 0b100,
            InputCurrentLimit::IINLIM_1500mA => 0b101,
            InputCurrentLimit::IINLIM_2000mA => 0b110,
            InputCurrentLimit::IINLIM_3000mA => 0b111,
        }
    }

    fn from_bits(bits: u8) -> (value: Option<Self>) {
        match bits {
            0b000 => Some(InputCurrentLimit::IINLIM_100mA),
            0b001 => Some(InputCurrentLimit::IINLIM_150mA),
            0b010 => Some(InputCurrentLimit::IINLIM_500mA),
            0b011 => Some(InputCurrentLimit::IINLIM_900mA),
            0b100 => Some(InputCurrentLimit::IINLIM_1200mA),
            0b101 => Some(InputCurrentLimit::IINLIM_1500mA),
            0b110 => Some(InputCurrentLimit::IINLIM_2000mA),
            0b111 => Some(InputCurrentLimit::IINLIM_3000mA),
            _ => None,
        }
    }

    proof fn lemma_round_trip(self) {
        Self::layout().lemma_max_value();
    }

    proof fn lemma_decode(bits: u8) {
    }
}

impl Exhaustive for InputCurrentLimit {
    proof fn lemma_exhaustive(bits: u8) {
        Self::layout().lemma_max_value();
    }
}

} // verus!
