//! Telemetry from the System Status Register.

use vstd::prelude::*;
use crate::field::Field;
use crate::registers::{Enumeration, Exhaustive, I2cRegister, Reg08, Reg08Field};

verus! {

/// What is connected at the input (`VBUS_STAT`).
#[derive(Clone, Copy, Debug, PartialEq, Eq)]
pub enum VBusStatus {
    /// No input, or detection has not finished.
    Unknown,
    UsbHost,
    Adapter,
    Otg,
}

impl Enumeration for VBusStatus {
    type Register = Reg08;

    open spec fn layout() -> Field<Reg08> {
        Reg08::layout(Reg08Field::VbusStat)
    }

    open spec fn code(self) -> u8 {
        match self {
            VBusStatus::Unknown => 0b00,
            VBusStatus::UsbHost => 0b01,
            VBusStatus::Adapter => 0b10,
            VBusStatus::Otg => 0b11,
        }
    }

    open spec fn decode(bits: u8) -> Option<Self> {
        match bits {
            0b00 => Some(VBusStatus::Unknown),
            0b01 => Some(VBusStatus::UsbHost),
            0b10 => Some(VBusStatus::Adapter),
            0b11 => Some(VBusStatus::Otg),
            _ => None,
        }
    }

    fn field() -> (field: Field<Reg08>) {
        Reg08::field(Reg08Field::VbusStat)
    }

    fn bits(&self) -> (bits: u8) {
        match self {
            VBusStatus::Unknown => 0b00,
            VBusStatus::UsbHost => 0b01,
            VBusStatus::Adapter => 0b10,
            VBusStatus::Otg => 0b11,
        }
    }

    fn from_bits(bits: u8) -> (value: Option<Self>) {
        match bits {
            0b00 => Some(VBusStatus::Unknown),
            0b01 => Some(VBusStatus::UsbHost),
            0b10 => Some(VBusStatus::Adapter),
            0b11 => Some(VBusStatus::Otg),
            _ => None,
        }
    }

    proof fn lemma_round_trip(self) {
        Self::layout().lemma_max_value();
    }

    proof fn lemma_decode(bits: u8) {
    }
}

impl Exhaustive for VBusStatus {
    proof fn lemma_exhaustive(bits: u8) {
        Self::layout().lemma_max_value();
    }
}

/// The charging state of the device (`CHRG_STAT`).
#[derive(Clone, Copy, Debug, PartialEq, Eq)]
pub enum ChargerStatus {
    NotCharging,
    PreCharge,
    FastCharging,
    ChargeTerminationDone,
}

impl Enumeration for ChargerStatus {
    type Register = Reg08;

    open spec fn layout() -> Field<Reg08> {
        Reg08::layout(Reg08Field::ChrgStat)
    }

    open spec fn code(self) -> u8 {
        match self {
            ChargerStatus::NotCharging => 0b00,
            ChargerStatus::PreCharge => 0b01,
            ChargerStatus::FastCharging => 0b10,
            ChargerStatus::ChargeTerminationDone => 0b11,
        }
    }

    open spec fn decode(bits: u8) -> Option<Self> {
        match bits {
            0b00 => Some(ChargerStatus::NotCharging),
            0b01 => Some(ChargerStatus::PreCharge),
            0b10 => Some(ChargerStatus::FastCharging),
            0b11 => Some(ChargerStatus::ChargeTerminationDone),
            _ => None,
        }
    }

    fn field() -> (field: Field<Reg08>) {
        Reg08::field(Reg08Field::ChrgStat)
    }

    fn bits(&self) -> (bits: u8) {
        match self {
            ChargerStatus::NotCharging => 0b00,
            ChargerStatus::PreCharge => 0b01,
            ChargerStatus::FastCharging => 0b10,
            ChargerStatus::ChargeTerminationDone => 0b11,
        }
    }

    fn from_bits(bits: u8) -> (value: Option<Self>) {
        match bits {
            0b00 => Some(ChargerStatus::NotCharging),
            0b01 => Some(ChargerStatus::PreCharge),
            0b10 => Some(ChargerStatus::FastCharging),
            0b11 => Some(ChargerStatus::ChargeTerminationDone),
            _ => None,
        }
    }

    proof fn lemma_round_trip(self) {
        Self::layout().lemma_max_value();
    }

    proof fn lemma_decode(bits: u8) {
    }
}

impl Exhaustive for ChargerStatus {
    proof fn lemma_exhaustive(bits: u8) {
        Self::layout().lemma_max_value();
    }
}

} // verus!
