//! The I2C watchdog timer setting, held in the Charge Termination/Timer Control Register.

use vstd::prelude::*;
use crate::field::Field;
use crate::registers::{Enumeration, Exhaustive, I2cRegister, Reg05, Reg05Field};

verus! {

/// How long the host may stay silent before the charger falls back to its defaults (`WATCHDOG`).
#[allow(non_camel_case_types)]
#[derive(Clone, Copy, Debug, PartialEq, Eq)]
pub enum WatchdogTimer {
    Disabled,
    Timer_40s,
    Timer_80s,
    Timer_160s,
}

impl Enumeration for WatchdogTimer {
    type Register = Reg05;

    open spec fn layout() -> Field<Reg05> {
        Reg05::layout(Reg05Field::Watchdog)
    }

    open spec fn code(self) -> u8 {
        match self {
            WatchdogTimer::Disabled => 0b00,
            WatchdogTimer::Timer_40s => 0b01,
            WatchdogTimer::Timer_80s => 0b10,
            WatchdogTimer::Timer_160s => 0b11,
        }
    }

    open spec fn decode(bits: u8) -> Option<Self> {
        match bits {
            0b00 => Some(WatchdogTimer::Disabled),
            0b01 => Some(WatchdogTimer::Timer_40s),
            0b10 => Some(WatchdogTimer::Timer_80s),
            0b11 => Some(WatchdogTimer::Timer_160s),
            _ => None,
        }
    }

    fn field() -> (field: Field<Reg05>) {
        Reg05::field(Reg05Field::Watchdog)
    }

    fn bits(&self) -> (bits: u8) {
        match self {
            WatchdogTimer::Disabled => 0b00,
            WatchdogTimer::Timer_40s => 0b01,
            WatchdogTimer::Timer_80s => 0b10,
            WatchdogTimer::Timer_160s => 0b11,
        }
    }

    fn from_bits(bits: u8) -> (value: Option<Self>) {
        match bits {
            0b00 => Some(WatchdogTimer::Disabled),
            0b01 => Some(WatchdogTimer::Timer_40s),
            0b10 => Some(WatchdogTimer::Timer_80s),
            0b11 => Some(WatchdogTimer::Timer_160s),
            _ => None,
        }
    }

    proof fn lemma_round_trip(self) {
        Self::layout().lemma_max_value();
    }

    proof fn lemma_decode(bits: u8) {
    }
}

impl Exhaustive for WatchdogTimer {
    proof fn lemma_exhaustive(bits: u8) {
        Self::layout().lemma_max_value();
    }
}

} // verus!
