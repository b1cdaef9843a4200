//! The register map of the charger: eleven 8-bit registers, each with an
//! address and a table of named bit fields.

use vstd::prelude::*;
use core::marker::PhantomData;
use crate::field::Field;

verus! {

/// The part number that the charger reports in the `PN` field of [`Reg0A`].
pub const DEFAULT_PN: u8 = 0b101;

/// The highest register address of the device.
pub const LAST_ADDR: u8 = 0x0A;

/// A register of the device: its address and its table of fields.
pub trait I2cRegister: Sized {
    /// The register's address on the device.
    const ADDR: u8;

    /// The names of the register's fields.
    type FieldName;

    /// The value of [`ADDR`](Self::ADDR), for contracts.
    spec fn address() -> u8;

    /// The bit range that each field occupies.
    spec fn layout(name: Self::FieldName) -> Field<Self>;

    /// Looks a field up in the register's table.
    fn field(name: Self::FieldName) -> (field: Field<Self>)
        ensures
            field == Self::layout(name),
            field.well_formed(),
    ;

    /// The address is one of the device's.
    proof fn lemma_address()
        ensures
            Self::ADDR == Self::address(),
            Self::address() <= LAST_ADDR,
    ;

    /// Every field lies within the byte and has at most six bits, and no
    /// two fields of the register share a bit.
    proof fn lemma_layout(a: Self::FieldName, b: Self::FieldName)
        ensures
            Self::layout(a).well_formed(),
            Self::layout(a).width <= 6,
            a != b ==> Self::layout(a).disjoint(Self::layout(b)),
    ;
}

/// The named values of a field: a closed set of bit patterns, each with a
/// name. A pattern outside the set decodes to `None`, never to a default.
pub trait Enumeration: Sized {
    /// The register that holds the field.
    type Register: I2cRegister;

    /// The field that holds the values.
    spec fn layout() -> Field<Self::Register>;

    /// The bit pattern that stands for a value.
    spec fn code(self) -> u8;

    /// The value that a bit pattern stands for, if it stands for one.
    spec fn decode(bits: u8) -> Option<Self>;

    /// The field that holds the values.
    fn field() -> (field: Field<Self::Register>)
        ensures
            field == Self::layout(),
            field.well_formed(),
    ;

    /// Encodes a value as the field's bits.
    fn bits(&self) -> (bits: u8)
        ensures
            bits == self.code(),
    ;

    /// Decodes the field's bits.
    fn from_bits(bits: u8) -> (value: Option<Self>)
        ensures
            value == Self::decode(bits),
    ;

    /// Every value survives encoding and decoding, and its code fits the
    /// field.
    proof fn lemma_round_trip(self)
        ensures
            Self::decode(self.code()) == Some(self),
            Self::layout().well_formed(),
            self.code() <= Self::layout().max_value(),
    ;

    /// A pattern decodes only to the value that encodes to it.
    proof fn lemma_decode(bits: u8)
        ensures
            Self::decode(bits) matches Some(value) ==> value.code() == bits,
    ;
}

/// An enumeration that names every pattern of its field, so that decoding
/// the field cannot fail.
pub trait Exhaustive: Enumeration {
    /// Every pattern that fits the field stands for a value.
    proof fn lemma_exhaustive(bits: u8)
        requires
            bits <= Self::layout().max_value(),
        ensures
            Self::decode(bits) is Some,
    ;
}

/// A field that was set to a value of its enumeration reads back as that
/// value, whatever the register held before.
pub proof fn lemma_set_then_get<E: Enumeration>(byte: u8, value: E)
    ensures
        E::decode(E::layout().read_spec(E::layout().modify_spec(byte, value.code()))) == Some(
            value,
        ),
{
    value.lemma_round_trip();
    E::layout().lemma_read_after_modify(byte, value.code());
}

/// Setting one field of a register leaves every other field of that register
/// as it was.
pub proof fn lemma_set_keeps_siblings<REG: I2cRegister>(
    changed: REG::FieldName,
    other: REG::FieldName,
    byte: u8,
    bits: u8,
)
    requires
        changed != other,
    ensures
        REG::layout(other).read_spec(REG::layout(changed).modify_spec(byte, bits)) == REG::layout(
            other,
        ).read_spec(byte),
        REG::layout(other).is_set_spec(REG::layout(changed).modify_spec(byte, bits))
            == REG::layout(other).is_set_spec(byte),
{
    REG::lemma_layout(changed, other);
    REG::lemma_layout(other, changed);
    REG::layout(changed).lemma_modify_keeps_disjoint_field(REG::layout(other), byte, bits);
}

/// A raw byte together with the register it was read from or will be written
/// to.
pub struct RegisterValue<REG> {
    value: u8,
    register: PhantomData<REG>,
}

impl<REG> View for RegisterValue<REG> {
    type V = u8;

    closed spec fn view(&self) -> u8 {
        self.value
    }
}

impl<REG: I2cRegister> RegisterValue<REG> {
    /// Pairs a raw byte with the register `REG`.
    pub fn new(value: u8) -> (reg: Self)
        ensures
            reg@ == value,
    {
        RegisterValue { value, register: PhantomData }
    }

    /// The raw byte.
    pub fn get(&self) -> (value: u8)
        ensures
            value == self@,
    {
        self.value
    }

    /// The value of one field.
    pub fn read(&self, field: Field<REG>) -> (bits: u8)
        requires
            field.well_formed(),
        ensures
            bits == field.read_spec(self@),
            bits <= field.max_value(),
    {
        field.read(self.value)
    }

    /// Whether any bit of the field is set.
    pub fn is_set(&self, field: Field<REG>) -> (set: bool)
        requires
            field.well_formed(),
        ensures
            set == field.is_set_spec(self@),
    {
        field.is_set(self.value)
    }

    /// The named value of the field that `E` enumerates, or `None` where the
    /// field holds a pattern without a name.
    pub fn read_as_enum<E: Enumeration<Register = REG>>(&self) -> (value: Option<E>)
        ensures
            value == E::decode(E::layout().read_spec(self@)),
    {
        E::from_bits(self.read(E::field()))
    }

    /// The value of the field that `E` enumerates, for an enumeration that
    /// names every pattern of the field.
    pub fn read_enum<E: Exhaustive<Register = REG>>(&self) -> (value: E)
        ensures
            E::decode(E::layout().read_spec(self@)) == Some(value),
    {
        let bits = self.read(E::field());
        proof {
            E::lemma_exhaustive(bits);
        }
        E::from_bits(bits).unwrap()
    }

    /// Sets one field to `bits` and leaves the rest of the byte as it is.
    pub fn modify(&mut self, field: Field<REG>, bits: u8)
        requires
            field.well_formed(),
        ensures
            final(self)@ == field.modify_spec(old(self)@, bits),
    {
        self.value = field.modify(self.value, bits);
    }
}

/// Input Source Control Register.
pub struct Reg00;

/// The fields of [`Reg00`].
#[derive(Clone, Copy, Debug, PartialEq, Eq)]
pub enum Reg00Field {
    /// `EN_HIZ`, bit 7: input high-impedance mode.
    EnHiz,
    /// `VINDPM`, bits 6..3: input voltage limit.
    Vindpm,
    /// `IINLIM`, bits 2..0: input current limit.
    Iinlim,
}

impl I2cRegister for Reg00 {
    const ADDR: u8 = 0x00;

    type FieldName = Reg00Field;

    open spec fn address() -> u8 {
        0x00
    }

    open spec fn layout(name: Reg00Field) -> Field<Reg00> {
        match name {
            Reg00Field::EnHiz => Field::at(7, 1),
            Reg00Field::Vindpm => Field::at(3, 4),
            Reg00Field::Iinlim => Field::at(0, 3),
        }
    }

    fn field(name: Reg00Field) -> (field: Field<Reg00>) {
        match name {
            Reg00Field::EnHiz => Field::new(7, 1),
            Reg00Field::Vindpm => Field::new(3, 4),
            Reg00Field::Iinlim => Field::new(0, 3),
        }
    }

    proof fn lemma_address() {
    }

    proof fn lemma_layout(a: Reg00Field, b: Reg00Field) {
    }
}

/// Power-On Configuration Register.
pub struct Reg01;

/// The fields of [`Reg01`].
#[derive(Clone, Copy, Debug, PartialEq, Eq)]
pub enum Reg01Field {
    /// `REG_RESET`, bit 7: register reset.
    RegReset,
    /// `WD_RESET`, bit 6: watchdog timer reset; the device clears the bit by itself.
    WdReset,
    /// `CHG_CONFIG`, bits 5..4: charger configuration.
    ChgConfig,
    /// `SYS_MIN`, bits 3..1: minimum system voltage limit.
    SysMin,
    /// `BOOST_LIM`, bit 0: boost mode current limit.
    BoostLim,
}

impl I2cRegister for Reg01 {
    const ADDR: u8 = 0x01;

    type FieldName = Reg01Field;

    open spec fn address() -> u8 {
        0x01
    }

    open spec fn layout(name: Reg01Field) -> Field<Reg01> {
        match name {
            Reg01Field::RegReset => Field::at(7, 1),
            Reg01Field::WdReset => Field::at(6, 1),
            Reg01Field::ChgConfig => Field::at(4, 2),
            Reg01Field::SysMin => Field::at(1, 3),
            Reg01Field::BoostLim => Field::at(0, 1),
        }
    }

    fn field(name: Reg01Field) -> (field: Field<Reg01>) {
        match name {
            Reg01Field::RegReset => Field::new(7, 1),
            Reg01Field::WdReset => Field::new(6, 1),
            Reg01Field::ChgConfig => Field::new(4, 2),
            Reg01Field::SysMin => Field::new(1, 3),
            Reg01Field::BoostLim => Field::new(0, 1),
        }
    }

    proof fn lemma_address() {
    }

    proof fn lemma_layout(a: Reg01Field, b: Reg01Field) {
    }
}

/// Charge Current Control Register.
pub struct Reg02;

/// The fields of [`Reg02`].
#[derive(Clone, Copy, Debug, PartialEq, Eq)]
pub enum Reg02Field {
    /// `ICHG`, bits 7..2: fast charge current limit.
    Ichg,
    /// `FORCE_20PCT`, bit 0: charge at 20% of the current limit.
    Force20pct,
}

impl I2cRegister for Reg02 {
    const ADDR: u8 = 0x02;

    type FieldName = Reg02Field;

    open spec fn address() -> u8 {
        0x02
    }

    open spec fn layout(name: Reg02Field) -> Field<Reg02> {
        match name {
            Reg02Field::Ichg => Field::at(2, 6),
            Reg02Field::Force20pct => Field::at(0, 1),
        }
    }

    fn field(name: Reg02Field) -> (field: Field<Reg02>) {
        match name {
            Reg02Field::Ichg => Field::new(2, 6),
            Reg02Field::Force20pct => Field::new(0, 1),
        }
    }

    proof fn lemma_address() {
    }

    proof fn lemma_layout(a: Reg02Field, b: Reg02Field) {
    }
}

/// Pre-Charge/Termination Current Control Register.
pub struct Reg03;

/// The fields of [`Reg03`].
#[derive(Clone, Copy, Debug, PartialEq, Eq)]
pub enum Reg03Field {
    /// `IPRECHG`, bits 7..4: pre-charge current limit.
    Iprechg,
    /// `ITERM`, bits 3..0: termination current limit.
    Iterm,
}

impl I2cRegister for Reg03 {
    const ADDR: u8 = 0x03;

    type FieldName = Reg03Field;

    open spec fn address() -> u8 {
        0x03
    }

    open spec fn layout(name: Reg03Field) -> Field<Reg03> {
        match name {
            Reg03Field::Iprechg => Field::at(4, 4),
            Reg03Field::Iterm => Field::at(0, 4),
        }
    }

    fn field(name: Reg03Field) -> (field: Field<Reg03>) {
        match name {
            Reg03Field::Iprechg => Field::new(4, 4),
            Reg03Field::Iterm => Field::new(0, 4),
        }
    }

    proof fn lemma_address() {
    }

    proof fn lemma_layout(a: Reg03Field, b: Reg03Field) {
    }
}

/// Charge Voltage Control Register.
pub struct Reg04;

/// The fields of [`Reg04`].
#[derive(Clone, Copy, Debug, PartialEq, Eq)]
pub enum Reg04Field {
    /// `VREG`, bits 7..2: charge voltage limit.
    Vreg,
    /// `BATLOWV`, bit 1: pre-charge to fast charge threshold.
    Batlowv,
    /// `VRECHG`, bit 0: battery recharge threshold.
    Vrechg,
}

impl I2cRegister for Reg04 {
    const ADDR: u8 = 0x04;

    type FieldName = Reg04Field;

    open spec fn address() -> u8 {
        0x04
    }

    open spec fn layout(name: Reg04Field) -> Field<Reg04> {
        match name {
            Reg04Field::Vreg => Field::at(2, 6),
            Reg04Field::Batlowv => Field::at(1, 1),
            Reg04Field::Vrechg => Field::at(0, 1),
        }
    }

    fn field(name: Reg04Field) -> (field: Field<Reg04>) {
        match name {
            Reg04Field::Vreg => Field::new(2, 6),
            Reg04Field::Batlowv => Field::new(1, 1),
            Reg04Field::Vrechg => Field::new(0, 1),
        }
    }

    proof fn lemma_address() {
    }

    proof fn lemma_layout(a: Reg04Field, b: Reg04Field) {
    }
}

/// Charge Termination/Timer Control Register.
pub struct Reg05;

/// The fields of [`Reg05`].
#[derive(Clone, Copy, Debug, PartialEq, Eq)]
pub enum Reg05Field {
    /// `EN_TERM`, bit 7: charging termination enable.
    EnTerm,
    /// `TERM_STAT`, bit 6: termination indicator threshold.
    TermStat,
    /// `WATCHDOG`, bits 5..4: I2C watchdog timer setting.
    Watchdog,
    /// `EN_TIMER`, bit 3: charging safety timer enable.
    EnTimer,
    /// `CHG_TIMER`, bits 2..1: fast charge timer setting.
    ChgTimer,
}

impl I2cRegister for Reg05 {
    const ADDR: u8 = 0x05;

    type FieldName = Reg05Field;

    open spec fn address() -> u8 {
        0x05
    }

    open spec fn layout(name: Reg05Field) -> Field<Reg05> {
        match name {
            Reg05Field::EnTerm => Field::at(7, 1),
            Reg05Field::TermStat => Field::at(6, 1),
            Reg05Field::Watchdog => Field::at(4, 2),
            Reg05Field::EnTimer => Field::at(3, 1),
            Reg05Field::ChgTimer => Field::at(1, 2),
        }
    }

    fn field(name: Reg05Field) -> (field: Field<Reg05>) {
        match name {
            Reg05Field::EnTerm => Field::new(7, 1),
            Reg05Field::TermStat => Field::new(6, 1),
            Reg05Field::Watchdog => Field::new(4, 2),
            Reg05Field::EnTimer => Field::new(3, 1),
            Reg05Field::ChgTimer => Field::new(1, 2),
        }
    }

    proof fn lemma_address() {
    }

    proof fn lemma_layout(a: Reg05Field, b: Reg05Field) {
    }
}

/// Thermal Regulation Control Register.
pub struct Reg06;

/// The fields of [`Reg06`].
#[derive(Clone, Copy, Debug, PartialEq, Eq)]
pub enum Reg06Field {
    /// `TREG`, bits 1..0: thermal regulation threshold.
    Treg,
}

impl I2cRegister for Reg06 {
    const ADDR: u8 = 0x06;

    type FieldName = Reg06Field;

    open spec fn address() -> u8 {
        0x06
    }

    open spec fn layout(name: Reg06Field) -> Field<Reg06> {
        match name {
            Reg06Field::Treg => Field::at(0, 2),
        }
    }

    fn field(name: Reg06Field) -> (field: Field<Reg06>) {
        match name {
            Reg06Field::Treg => Field::new(0, 2),
        }
    }

    proof fn lemma_address() {
    }

    proof fn lemma_layout(a: Reg06Field, b: Reg06Field) {
    }
}

/// Misc Operation Control Register.
pub struct Reg07;

/// The fields of [`Reg07`].
#[derive(Clone, Copy, Debug, PartialEq, Eq)]
pub enum Reg07Field {
    /// `DPDM_EN`, bit 7: force D+/D- detection.
    DpdmEn,
    /// `TMR2X_EN`, bit 6: slow the safety timer during regulation.
    Tmr2xEn,
    /// `BATFET_DIS`, bit 5: force the battery FET off.
    BatfetDis,
    /// `INT_MASK1`, bit 1: interrupt on a charge fault.
    IntMask1,
    /// `INT_MASK0`, bit 0: interrupt on a battery fault.
    IntMask0,
}

impl I2cRegister for Reg07 {
    const ADDR: u8 = 0x07;

    type FieldName = Reg07Field;

    open spec fn address() -> u8 {
        0x07
    }

    open spec fn layout(name: Reg07Field) -> Field<Reg07> {
        match name {
            Reg07Field::DpdmEn => Field::at(7, 1),
            Reg07Field::Tmr2xEn => Field::at(6, 1),
            Reg07Field::BatfetDis => Field::at(5, 1),
            Reg07Field::IntMask1 => Field::at(1, 1),
            Reg07Field::IntMask0 => Field::at(0, 1),
        }
    }

    fn field(name: Reg07Field) -> (field: Field<Reg07>) {
        match name {
            Reg07Field::DpdmEn => Field::new(7, 1),
            Reg07Field::Tmr2xEn => Field::new(6, 1),
            Reg07Field::BatfetDis => Field::new(5, 1),
            Reg07Field::IntMask1 => Field::new(1, 1),
            Reg07Field::IntMask0 => Field::new(0, 1),
        }
    }

    proof fn lemma_address() {
    }

    proof fn lemma_layout(a: Reg07Field, b: Reg07Field) {
    }
}

/// System Status Register (read-only).
pub struct Reg08;

/// The fields of [`Reg08`].
#[derive(Clone, Copy, Debug, PartialEq, Eq)]
pub enum Reg08Field {
    /// `VBUS_STAT`, bits 7..6: what is connected at the input.
    VbusStat,
    /// `CHRG_STAT`, bits 5..4: charging state.
    ChrgStat,
    /// `DPM_STAT`, bit 3: dynamic power management active.
    DpmStat,
    /// `PG_STAT`, bit 2: power good.
    PgStat,
}

impl I2cRegister for Reg08 {
    const ADDR: u8 = 0x08;

    type FieldName = Reg08Field;

    open spec fn address() -> u8 {
        0x08
    }

    open spec fn layout(name: Reg08Field) -> Field<Reg08> {
        match name {
            Reg08Field::VbusStat => Field::at(6, 2),
            Reg08Field::ChrgStat => Field::at(4, 2),
            Reg08Field::DpmStat => Field::at(3, 1),
            Reg08Field::PgStat => Field::at(2, 1),
        }
    }

    fn field(name: Reg08Field) -> (field: Field<Reg08>) {
        match name {
            Reg08Field::VbusStat => Field::new(6, 2),
            Reg08Field::ChrgStat => Field::new(4, 2),
            Reg08Field::DpmStat => Field::new(3, 1),
            Reg08Field::PgStat => Field::new(2, 1),
        }
    }

    proof fn lemma_address() {
    }

    proof fn lemma_layout(a: Reg08Field, b: Reg08Field) {
    }
}

/// Fault Register (read-only).
pub struct Reg09;

/// The fields of [`Reg09`].
#[derive(Clone, Copy, Debug, PartialEq, Eq)]
pub enum Reg09Field {
    /// `WATCHDOG_FAULT`, bit 7: watchdog timer expiry.
    WatchdogFault,
    /// `BOOST_FAULT`, bit 6: boost mode fault.
    BoostFault,
    /// `CHRG_FAULT`, bits 5..4: charging fault.
    ChrgFault,
    /// `BAT_FAULT`, bit 3: battery overvoltage.
    BatFault,
    /// `NTC_FAULT`, bits 2..0: battery temperature fault.
    NtcFault,
}

impl I2cRegister for Reg09 {
    const ADDR: u8 = 0x09;

    type FieldName = Reg09Field;

    open spec fn address() -> u8 {
        0x09
    }

    open spec fn layout(name: Reg09Field) -> Field<Reg09> {
        match name {
            Reg09Field::WatchdogFault => Field::at(7, 1),
            Reg09Field::BoostFault => Field::at(6, 1),
            Reg09Field::ChrgFault => Field::at(4, 2),
            Reg09Field::BatFault => Field::at(3, 1),
            Reg09Field::NtcFault => Field::at(0, 3),
        }
    }

    fn field(name: Reg09Field) -> (field: Field<Reg09>) {
        match name {
            Reg09Field::WatchdogFault => Field::new(7, 1),
            Reg09Field::BoostFault => Field::new(6, 1),
            Reg09Field::ChrgFault => Field::new(4, 2),
            Reg09Field::BatFault => Field::new(3, 1),
            Reg09Field::NtcFault => Field::new(0, 3),
        }
    }

    proof fn lemma_address() {
    }

    proof fn lemma_layout(a: Reg09Field, b: Reg09Field) {
    }
}

/// Vendor / Part / Revision Status Register (read-only).
pub struct Reg0A;

/// The fields of [`Reg0A`].
#[derive(Clone, Copy, Debug, PartialEq, Eq)]
pub enum Reg0AField {
    /// `PN`, bits 5..3: part number.
    Pn,
    /// `TS_PROFILE`, bit 2: temperature profile.
    TsProfile,
    /// `DEV_REG`, bits 1..0: device revision.
    DevReg,
}

impl I2cRegister for Reg0A {
    const ADDR: u8 = 0x0A;

    type FieldName = Reg0AField;

    open spec fn address() -> u8 {
        0x0A
    }

    open spec fn layout(name: Reg0AField) -> Field<Reg0A> {
        match name {
            Reg0AField::Pn => Field::at(3, 3),
            Reg0AField::TsProfile => Field::at(2, 1),
            Reg0AField::DevReg => Field::at(0, 2),
        }
    }

    fn field(name: Reg0AField) -> (field: Field<Reg0A>) {
        match name {
            Reg0AField::Pn => Field::new(3, 3),
            Reg0AField::TsProfile => Field::new(2, 1),
            Reg0AField::DevReg => Field::new(0, 2),
        }
    }

    proof fn lemma_address() {
    }

    proof fn lemma_layout(a: Reg0AField, b: Reg0AField) {
    }
}

} // verus!
