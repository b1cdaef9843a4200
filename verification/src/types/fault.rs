//! The fault register, decoded.
//!
//! One byte of the Fault Register holds five independent faults. [`Faults`]
//! is the decoded snapshot; it is made fresh from every read of the register.

use vstd::prelude::*;
use vstd::arithmetic::power2::lemma2_to64;
use vstd::std_specs::convert::TryFromSpecImpl;
use crate::field::Field;
use crate::registers::{Enumeration, Exhaustive, I2cRegister, Reg09, Reg09Field, RegisterValue};

verus! {

/// I2C watchdog timer expiry (`WATCHDOG_FAULT`).
#[derive(Clone, Copy, Debug, PartialEq, Eq)]
pub enum WatchdogFault {
    Normal,
    TimerExpired,
}

impl Enumeration for WatchdogFault {
    type Register = Reg09;

    open spec fn layout() -> Field<Reg09> {
        Reg09::layout(Reg09Field::WatchdogFault)
    }

    open spec fn code(self) -> u8 {
        match self {
            WatchdogFault::Normal => 0,
            WatchdogFault::TimerExpired => 1,
        }
    }

    open spec fn decode(bits: u8) -> Option<Self> {
        match bits {
            0 => Some(WatchdogFault::Normal),
            1 => Some(WatchdogFault::TimerExpired),
            _ => None,
        }
    }

    fn field() -> (field: Field<Reg09>) {
        Reg09::field(Reg09Field::WatchdogFault)
    }

    fn bits(&self) -> (bits: u8) {
        match self {
            WatchdogFault::Normal => 0,
            WatchdogFault::TimerExpired => 1,
        }
    }

    fn from_bits(bits: u8) -> (value: Option<Self>) {
        match bits {
            0 => Some(WatchdogFault::Normal),
            1 => Some(WatchdogFault::TimerExpired),
            _ => None,
        }
    }

    proof fn lemma_round_trip(self) {
        Self::layout().lemma_max_value();
    }

    proof fn lemma_decode(bits: u8) {
    }
}

impl Exhaustive for WatchdogFault {
    proof fn lemma_exhaustive(bits: u8) {
        Self::layout().lemma_max_value();
    }
}

/// Fault in boost mode (`BOOST_FAULT`).
#[derive(Clone, Copy, Debug, PartialEq, Eq)]
pub enum BoostFault {
    Normal,
    /// VBUS overloaded, or VBUS overvoltage in boost mode.
    Fault,
}

impl Enumeration for BoostFault {
    type Register = Reg09;

    open spec fn layout() -> Field<Reg09> {
        Reg09::layout(Reg09Field::BoostFault)
    }

    open spec fn code(self) -> u8 {
        match self {
            BoostFault::Normal => 0,
            BoostFault::Fault => 1,
        }
    }

    open spec fn decode(bits: u8) -> Option<Self> {
        match bits {
            0 => Some(BoostFault::Normal),
            1 => Some(BoostFault::Fault),
            _ => None,
        }
    }

    fn field() -> (field: Field<Reg09>) {
        Reg09::field(Reg09Field::BoostFault)
    }

    fn bits(&self) -> (bits: u8) {
        match self {
            BoostFault::Normal => 0,
            BoostFault::Fault => 1,
        }
    }

    fn from_bits(bits: u8) -> (value: Option<Self>) {
        match bits {
            0 => Some(BoostFault::Normal),
            1 => Some(BoostFault::Fault),
            _ => None,
        }
    }

    proof fn lemma_round_trip(self) {
        Self::layout().lemma_max_value();
    }

    proof fn lemma_decode(bits: u8) {
    }
}

impl Exhaustive for BoostFault {
    proof fn lemma_exhaustive(bits: u8) {
        Self::layout().lemma_max_value();
    }
}

/// Fault on the charging path (`CHRG_FAULT`).
#[derive(Clone, Copy, Debug, PartialEq, Eq)]
pub enum ChargeFault {
    Normal,
    InputFault,
    ThermalShutdown,
    SafetyTimer,
}

impl Enumeration for ChargeFault {
    type Register = Reg09;

    open spec fn layout() -> Field<Reg09> {
        Reg09::layout(Reg09Field::ChrgFault)
    }

    open spec fn code(self) -> u8 {
        match self {
            ChargeFault::Normal => 0b00,
            ChargeFault::InputFault => 0b01,
            ChargeFault::ThermalShutdown => 0b10,
            ChargeFault::SafetyTimer => 0b11,
        }
    }

    open spec fn decode(bits: u8) -> Option<Self> {
        match bits {
            0b00 => Some(ChargeFault::Normal),
            0b01 => Some(ChargeFault::InputFault),
            0b10 => Some(ChargeFault::ThermalShutdown),
            0b11 => Some(ChargeFault::SafetyTimer),
            _ => None,
        }
    }

    fn field() -> (field: Field<Reg09>) {
        Reg09::field(Reg09Field::ChrgFault)
    }

    fn bits(&self) -> (bits: u8) {
        match self {
            ChargeFault::Normal => 0b00,
            ChargeFault::InputFault => 0b01,
            ChargeFault::ThermalShutdown => 0b10,
            ChargeFault::SafetyTimer => 0b11,
        }
    }

    fn from_bits(bits: u8) -> (value: Option<Self>) {
        match bits {
            0b00 => Some(ChargeFault::Normal),
            0b01 => Some(ChargeFault::InputFault),
            0b10 => Some(ChargeFault::ThermalShutdown),
            0b11 => Some(ChargeFault::SafetyTimer),
            _ => None,
        }
    }

    proof fn lemma_round_trip(self) {
        Self::layout().lemma_max_value();
    }

    proof fn lemma_decode(bits: u8) {
    }
}

impl Exhaustive for ChargeFault {
    proof fn lemma_exhaustive(bits: u8) {
        Self::layout().lemma_max_value();
    }
}

/// Battery overvoltage (`BAT_FAULT`).
#[derive(Clone, Copy, Debug, PartialEq, Eq)]
pub enum BatFault {
    Normal,
    Overvoltage,
}

impl Enumeration for BatFault {
    type Register = Reg09;

    open spec fn layout() -> Field<Reg09> {
        Reg09::layout(Reg09Field::BatFault)
    }

    open spec fn code(self) -> u8 {
        match self {
            BatFault::Normal => 0,
            BatFault::Overvoltage => 1,
        }
    }

    open spec fn decode(bits: u8) -> Option<Self> {
        match bits {
            0 => Some(BatFault::Normal),
            1 => Some(BatFault::Overvoltage),
            _ => None,
        }
    }

    fn field() -> (field: Field<Reg09>) {
        Reg09::field(Reg09Field::BatFault)
    }

    fn bits(&self) -> (bits: u8) {
        match self {
            BatFault::Normal => 0,
            BatFault::Overvoltage => 1,
        }
    }

    fn from_bits(bits: u8) -> (value: Option<Self>) {
        match bits {
            0 => Some(BatFault::Normal),
            1 => Some(BatFault::Overvoltage),
            _ => None,
        }
    }

    proof fn lemma_round_trip(self) {
        Self::layout().lemma_max_value();
    }

    proof fn lemma_decode(bits: u8) {
    }
}

impl Exhaustive for BatFault {
    proof fn lemma_exhaustive(bits: u8) {
        Self::layout().lemma_max_value();
    }
}

/// Battery temperature fault (`NTC_FAULT`). Five of the eight patterns of the
/// field are reserved and name no value.
#[derive(Clone, Copy, Debug, PartialEq, Eq)]
pub enum NtcFault {
    Normal,
    Cold,
    Hot,
}

impl Enumeration for NtcFault {
    type Register = Reg09;

    open spec fn layout() -> Field<Reg09> {
        Reg09::layout(Reg09Field::NtcFault)
    }

    open spec fn code(self) -> u8 {
        match self {
            NtcFault::Normal => 0b000,
            NtcFault::Cold => 0b101,
            NtcFault::Hot => 0b110,
        }
    }

    open spec fn decode(bits: u8) -> Option<Self> {
        match bits {
            0b000 => Some(NtcFault::Normal),
            0b101 => Some(NtcFault::Cold),
            0b110 => Some(NtcFault::Hot),
            _ => None,
        }
    }

    fn field() -> (field: Field<Reg09>) {
        Reg09::field(Reg09Field::NtcFault)
    }

    fn bits(&self) -> (bits: u8) {
        match self {
            NtcFault::Normal => 0b000,
            NtcFault::Cold => 0b101,
            NtcFault::Hot => 0b110,
        }
    }

    fn from_bits(bits: u8) -> (value: Option<Self>) {
        match bits {
            0b000 => Some(NtcFault::Normal),
            0b101 => Some(NtcFault::Cold),
            0b110 => Some(NtcFault::Hot),
            _ => None,
        }
    }

    proof fn lemma_round_trip(self) {
        Self::layout().lemma_max_value();
    }

    proof fn lemma_decode(bits: u8) {
    }
}

/// The five faults that the device reports, as read at one moment.
pub struct Faults {
    pub watchdog: WatchdogFault,
    pub boost: BoostFault,
    pub charge: ChargeFault,
    pub bat: BatFault,
    pub ntc: NtcFault,
}

impl Faults {
    /// The faults that the raw fault byte `byte` reports: each field of the
    /// byte decoded by its own enumeration. `None` where any field holds a
    /// pattern without a name.
    pub open spec fn decode(byte: u8) -> Option<Faults> {
        match (
            WatchdogFault::decode(WatchdogFault::layout().read_spec(byte)),
            BoostFault::decode(BoostFault::layout().read_spec(byte)),
            ChargeFault::decode(ChargeFault::layout().read_spec(byte)),
            BatFault::decode(BatFault::layout().read_spec(byte)),
            NtcFault::decode(NtcFault::layout().read_spec(byte)),
        ) {
            (Some(watchdog), Some(boost), Some(charge), Some(bat), Some(ntc)) => Some(
                Faults { watchdog, boost, charge, bat, ntc },
            ),
            _ => None,
        }
    }

    /// Whether any of the five faults is not in its normal state.
    pub open spec fn is_active(self) -> bool {
        ||| self.watchdog != WatchdogFault::Normal
        ||| self.boost != BoostFault::Normal
        ||| self.charge != ChargeFault::Normal
        ||| self.bat != BatFault::Normal
        ||| self.ntc != NtcFault::Normal
    }

    /// The names of the active faults, in the order watchdog, boost, charge,
    /// battery, temperature.
    pub open spec fn active_names(self) -> Seq<&'static str> {
        (match self.watchdog {
            WatchdogFault::Normal => seq![],
            WatchdogFault::TimerExpired => seq!["WatchdogTimerExpired"],
        }) + (match self.boost {
            BoostFault::Normal => seq![],
            BoostFault::Fault => seq!["BoostFault"],
        }) + (match self.charge {
            ChargeFault::Normal => seq![],
            ChargeFault::InputFault => seq!["ChargeInputFault"],
            ChargeFault::ThermalShutdown => seq!["ChargeThermalShutdown"],
            ChargeFault::SafetyTimer => seq!["ChargeSafetyTimer"],
        }) + (match self.bat {
            BatFault::Normal => seq![],
            BatFault::Overvoltage => seq!["BatteryOvervoltage"],
        }) + (match self.ntc {
            NtcFault::Normal => seq![],
            NtcFault::Cold => seq!["NtcCold"],
            NtcFault::Hot => seq!["NtcHot"],
        })
    }

    /// Returns true if there are any active faults.
    pub fn fault_active(&self) -> (active: bool)
        ensures
            active == self.is_active(),
    {
        match self.watchdog {
            WatchdogFault::Normal => {},
            WatchdogFault::TimerExpired => return true,
        }
        match self.boost {
            BoostFault::Normal => {},
            BoostFault::Fault => return true,
        }
        match self.charge {
            ChargeFault::Normal => {},
            _ => return true,
        }
        match self.bat {
            BatFault::Normal => {},
            BatFault::Overvoltage => return true,
        }
        match self.ntc {
            NtcFault::Normal => {},
            _ => return true,
        }
        false
    }

    /// Lists the active faults by name, in the order watchdog, boost, charge,
    /// battery, temperature. No fault, no entry.
    pub fn names(&self) -> (names: Vec<&'static str>)
        ensures
            names@ == self.active_names(),
    {
        let mut names: Vec<&'static str> = Vec::new();
        match self.watchdog {
            WatchdogFault::Normal => {},
            WatchdogFault::TimerExpired => names.push("WatchdogTimerExpired"),
        }
        match self.boost {
            BoostFault::Normal => {},
            BoostFault::Fault => names.push("BoostFault"),
        }
        match self.charge {
            ChargeFault::Normal => {},
            ChargeFault::InputFault => names.push("ChargeInputFault"),
            ChargeFault::ThermalShutdown => names.push("ChargeThermalShutdown"),
            ChargeFault::SafetyTimer => names.push("ChargeSafetyTimer"),
        }
        match self.bat {
            BatFault::Normal => {},
            BatFault::Overvoltage => names.push("BatteryOvervoltage"),
        }
        match self.ntc {
            NtcFault::Normal => {},
            NtcFault::Cold => names.push("NtcCold"),
            NtcFault::Hot => names.push("NtcHot"),
        }
        assert(names@ =~= self.active_names());
        names
    }

    /// What a fault byte decodes to, in numbers: decoding fails exactly on
    /// the reserved temperature codes, and otherwise each fault is read off
    /// its own digits of the byte.
    pub proof fn lemma_decode(byte: u8)
        ensures
            Faults::decode(byte) == (match NtcFault::decode(byte % 8) {
                Some(ntc) => Some(
                    Faults {
                        watchdog: if byte / 128 == 1 {
                            WatchdogFault::TimerExpired
                        } else {
                            WatchdogFault::Normal
                        },
                        boost: if (byte / 64) % 2 == 1 {
                            BoostFault::Fault
                        } else {
                            BoostFault::Normal
                        },
                        charge: ChargeFault::decode((byte / 16) % 4).unwrap(),
                        bat: if (byte / 8) % 2 == 1 {
                            BatFault::Overvoltage
                        } else {
                            BatFault::Normal
                        },
                        ntc,
                    },
                ),
                None => None,
            }),
    {
        lemma2_to64();
        WatchdogFault::layout().lemma_read_is_div_mod(byte);
        BoostFault::layout().lemma_read_is_div_mod(byte);
        ChargeFault::layout().lemma_read_is_div_mod(byte);
        BatFault::layout().lemma_read_is_div_mod(byte);
        NtcFault::layout().lemma_read_is_div_mod(byte);
        assert(WatchdogFault::layout().read_spec(byte) == byte / 128);
        assert(BoostFault::layout().read_spec(byte) == (byte / 64) % 2);
        assert(ChargeFault::layout().read_spec(byte) == (byte / 16) % 4);
        assert(BatFault::layout().read_spec(byte) == (byte / 8) % 2);
        assert(NtcFault::layout().read_spec(byte) == byte % 8);
    }

    /// A byte that decodes reports an active fault exactly when it is not
    /// zero.
    pub proof fn lemma_active_iff_nonzero(byte: u8)
        ensures
            Faults::decode(byte) matches Some(faults) ==> (faults.is_active() <==> byte != 0),
    {
        Faults::lemma_decode(byte);
    }
}

impl TryFrom<RegisterValue<Reg09>> for Faults {
    type Error = ();

    /// Decodes a value of the Fault Register. Fails where a field of it holds
    /// a reserved pattern.
    fn try_from(reg: RegisterValue<Reg09>) -> (decoded: Result<Self, ()>)
        ensures
            decoded == (match Faults::decode(reg@) {
                Some(faults) => Ok(faults),
                None => Err(()),
            }),
    {
        let watchdog = reg.read_as_enum::<WatchdogFault>();
        let boost = reg.read_as_enum::<BoostFault>();
        let charge = reg.read_as_enum::<ChargeFault>();
        let bat = reg.read_as_enum::<BatFault>();
        let ntc = reg.read_as_enum::<NtcFault>();
        match (watchdog, boost, charge, bat, ntc) {
            (Some(watchdog), Some(boost), Some(charge), Some(bat), Some(ntc)) => Ok(
                Faults { watchdog, boost, charge, bat, ntc },
            ),
            _ => Err(()),
        }
    }
}

impl TryFromSpecImpl<RegisterValue<Reg09>> for Faults {
    open spec fn obeys_try_from_spec() -> bool {
        true
    }

    open spec fn try_from_spec(reg: RegisterValue<Reg09>) -> Result<Self, ()> {
        match Faults::decode(reg@) {
            Some(faults) => Ok(faults),
            None => Err(()),
        }
    }
}

} // verus!
