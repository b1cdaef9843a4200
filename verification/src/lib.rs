//! Driver for the BQ24196 single-cell battery charger.
//!
//! The charger is a set of eleven 8-bit registers behind a two-wire bus. The
//! driver gives them types: [`registers`] describes the register map,
//! [`types`] the values of its fields, and [`BQ24196`] reads and changes them
//! over an [`I2cBus`]. A change to a field is always one read of its register
//! followed by one write, so that the other fields of the register keep
//! their values.

pub mod bus;
pub mod field;
pub mod registers;
pub mod types;

use vstd::prelude::*;
use vstd::arithmetic::power2::lemma2_to64;
use bus::{fetch_failed, fetched, register_write, updated, I2cBus, Transfer, DEVICE_ADDR};
use field::Field;
use registers::{
    Enumeration, Exhaustive, I2cRegister, Reg00, Reg00Field, Reg01, Reg01Field, Reg08, Reg09,
    Reg0A, Reg0AField, RegisterValue, DEFAULT_PN,
};
use types::{
    ChargerStatus, Faults, InputCurrentLimit, InputVoltageLimit, VBusStatus, WatchdogTimer,
};

verus! {

#[derive(Debug)]
pub enum Error<E> {
    /// I2C bus error
    Bus(E),
    /// Device P/N did not match during initialization
    UnknownDevice,
    /// Register parsing failed
    ParserError,
}

/// Whether `byte`, as read from the part register, is that of the charger.
pub open spec fn identifies(byte: u8) -> bool {
    Reg0A::layout(Reg0AField::Pn).read_spec(byte) == DEFAULT_PN
}

/// In numbers: the part number is the second octal digit of the byte.
pub proof fn lemma_identifies(byte: u8)
    ensures
        identifies(byte) <==> (byte / 8) % 8 == 5,
{
    lemma2_to64();
    Reg0A::layout(Reg0AField::Pn).lemma_read_is_div_mod(byte);
}

/// Checks the part number in a value of the part register.
pub fn check_identity<E>(part: &RegisterValue<Reg0A>) -> (checked: Result<(), Error<E>>)
    ensures
        checked is Ok <==> identifies(part@),
        checked matches Err(e) ==> e is UnknownDevice,
{
    let pn = part.read(Reg0A::field(Reg0AField::Pn));
    if pn != DEFAULT_PN {
        return Err(Error::UnknownDevice);
    }
    Ok(())
}

/// What setting a field to `bits` leaves in the record of transfers: one read
/// of the field's register, then one write to it of the byte that was read
/// with the field replaced. Where the read fails nothing is written. The
/// error of the bus, from the read or from the write, is handed on as it is.
pub open spec fn field_updated<REG: I2cRegister, E>(
    before: Seq<Transfer<E>>,
    after: Seq<Transfer<E>>,
    field: Field<REG>,
    bits: u8,
    result: Result<(), Error<E>>,
) -> bool {
    match result {
        Ok(()) => exists|byte: u8| #[trigger]
            updated(before, after, REG::address(), byte, field.modify_spec(byte, bits), Ok(())),
        Err(Error::Bus(error)) => fetch_failed(before, after, REG::address(), error)
            || exists|byte: u8| #[trigger]
            updated(
                before,
                after,
                REG::address(),
                byte,
                field.modify_spec(byte, bits),
                Err(error),
            ),
        Err(_) => false,
    }
}

/// What reading the field that `T` enumerates leaves in the record of
/// transfers: one read of the field's register. The result is what the byte
/// that came back decodes to, or the error of the bus as it is.
pub open spec fn field_fetched<T: Exhaustive, E>(
    before: Seq<Transfer<E>>,
    after: Seq<Transfer<E>>,
    result: Result<T, Error<E>>,
) -> bool {
    match result {
        Ok(value) => exists|byte: u8| #[trigger]
            fetched(before, after, T::Register::address(), byte) && T::decode(
                T::layout().read_spec(byte),
            ) == Some(value),
        Err(Error::Bus(error)) => fetch_failed(before, after, T::Register::address(), error),
        Err(_) => false,
    }
}

/// Setting a field costs one read and at most one write, both to the charger
/// and of the field's register, and the write only after a read that went
/// through.
pub proof fn lemma_update_traffic<REG: I2cRegister, E>(
    before: Seq<Transfer<E>>,
    after: Seq<Transfer<E>>,
    field: Field<REG>,
    bits: u8,
    result: Result<(), Error<E>>,
)
    requires
        field_updated(before, after, field, bits, result),
    ensures
        after.len() == before.len() + 1 || after.len() == before.len() + 2,
        after.subrange(0, before.len() as int) == before,
        after[before.len() as int] is WriteRead,
        after[before.len() as int].address() == DEVICE_ADDR,
        after[before.len() as int].register() == REG::address(),
        after.len() == before.len() + 2 ==> {
            &&& after[before.len() as int] matches Transfer::WriteRead { response: Ok(_), .. }
            &&& after[before.len() as int + 1] is Write
            &&& after[before.len() as int + 1].address() == DEVICE_ADDR
            &&& after[before.len() as int + 1].register() == REG::address()
        },
        result is Ok ==> after.len() == before.len() + 2,
{
    let read_failed = result matches Err(Error::Bus(error)) && fetch_failed(
        before,
        after,
        REG::address(),
        error,
    );
    if read_failed {
        assert(after.subrange(0, before.len() as int) =~= before);
    } else {
        let outcome: Result<(), E> = match result {
            Ok(()) => Ok(()),
            Err(Error::Bus(error)) => Err(error),
            Err(_) => arbitrary(),
        };
        let byte = choose|byte: u8| #[trigger]
            updated(before, after, REG::address(), byte, field.modify_spec(byte, bits), outcome);
        assert(after.subrange(0, before.len() as int) =~= before);
    }
}

/// A charger whose identity has been checked.
pub struct BQ24196<I2C: I2cBus> {
    i2c: I2C,
    history: Ghost<Seq<Transfer<I2C::Error>>>,
}

impl<I2C: I2cBus> BQ24196<I2C> {
    /// Every transfer that the driver has asked the bus for, oldest first.
    pub closed spec fn history(&self) -> Seq<Transfer<I2C::Error>> {
        self.history@
    }

    /// Opens the device: reads the part register and checks the part number.
    pub fn new(i2c: I2C) -> (opened: Result<Self, Error<I2C::Error>>)
        ensures
            match opened {
                Ok(dev) => exists|byte: u8|
                    #[trigger] fetched(Seq::empty(), dev.history(), Reg0A::address(), byte)
                        && identifies(byte),
                Err(e) => e is Bus || e is UnknownDevice,
            },
    {
        let mut dev = Self { i2c, history: Ghost(Seq::empty()) };
        let part = match dev.read_reg::<Reg0A>() {
            Ok(part) => part,
            Err(e) => return Err(e),
        };
        match check_identity(&part) {
            Ok(()) => {
                let opened = Ok(dev);
                assert(fetched(Seq::empty(), opened->Ok_0.history(), Reg0A::address(), part@));
                opened
            },
            Err(e) => Err(e),
        }
    }

    /// Reads a register: writes its address to the device and reads one
    /// byte back.
    fn read_reg<REG: I2cRegister>(&mut self) -> (read: Result<
        RegisterValue<REG>,
        Error<I2C::Error>,
    >)
        ensures
            match read {
                Ok(reg) => fetched(
                    old(self).history(),
                    final(self).history(),
                    REG::address(),
                    reg@,
                ),
                Err(Error::Bus(error)) => fetch_failed(
                    old(self).history(),
                    final(self).history(),
                    REG::address(),
                    error,
                ),
                Err(_) => false,
            },
    {
        let address = [REG::ADDR];
        let mut buf = [0u8];
        let done = self.i2c.write_read(DEVICE_ADDR, &address, &mut buf);
        proof {
            REG::lemma_address();
            assert(address@ =~= seq![REG::address()]);
        }
        match done {
            Ok(()) => {
                let value = buf[0];
                proof {
                    self.history@ = self.history@.push(
                        Transfer::WriteRead {
                            address: DEVICE_ADDR,
                            bytes: address@,
                            response: Ok(seq![value]),
                        },
                    );
                }
                Ok(RegisterValue::new(value))
            },
            Err(error) => {
                proof {
                    self.history@ = self.history@.push(
                        Transfer::WriteRead {
                            address: DEVICE_ADDR,
                            bytes: address@,
                            response: Err(error),
                        },
                    );
                }
                Err(Error::Bus(error))
            },
        }
    }

    /// Writes a register: sends its address and the new value in one write.
    fn write_reg<REG: I2cRegister>(&mut self, reg: RegisterValue<REG>) -> (written: Result<
        (),
        Error<I2C::Error>,
    >)
        ensures
            match written {
                Ok(()) => final(self).history() == old(self).history().push(
                    register_write(REG::address(), reg@, Ok(())),
                ),
                Err(Error::Bus(error)) => final(self).history() == old(self).history().push(
                    register_write(REG::address(), reg@, Err(error)),
                ),
                Err(_) => false,
            },
    {
        let frame = [REG::ADDR, reg.get()];
        let done = self.i2c.write(DEVICE_ADDR, &frame);
        proof {
            REG::lemma_address();
            assert(frame@ =~= seq![REG::address(), reg@]);
        }
        match done {
            Ok(()) => {
                proof {
                    self.history@ = self.history@.push(
                        Transfer::Write { address: DEVICE_ADDR, bytes: frame@, done: Ok(()) },
                    );
                }
                Ok(())
            },
            Err(error) => {
                proof {
                    self.history@ = self.history@.push(
                        Transfer::Write {
                            address: DEVICE_ADDR,
                            bytes: frame@,
                            done: Err(error),
                        },
                    );
                }
                Err(Error::Bus(error))
            },
        }
    }

    /// Changes a register: reads it, applies `f` to what was read and writes
    /// the result back. Nothing is written where the read fails.
    fn modify_reg<REG: I2cRegister, F: FnOnce(RegisterValue<REG>) -> RegisterValue<REG>>(
        &mut self,
        f: F,
    ) -> (modified: Result<(), Error<I2C::Error>>)
        requires
            forall|reg: RegisterValue<REG>| call_requires(f, (reg,)),
        ensures
            match modified {
                Ok(()) => exists|from: RegisterValue<REG>, to: RegisterValue<REG>|
                    call_ensures(f, (from,), to) && #[trigger] updated(
                        old(self).history(),
                        final(self).history(),
                        REG::address(),
                        from@,
                        to@,
                        Ok(()),
                    ),
                Err(Error::Bus(error)) => fetch_failed(
                    old(self).history(),
                    final(self).history(),
                    REG::address(),
                    error,
                ) || exists|from: RegisterValue<REG>, to: RegisterValue<REG>|
                    call_ensures(f, (from,), to) && #[trigger] updated(
                        old(self).history(),
                        final(self).history(),
                        REG::address(),
                        from@,
                        to@,
                        Err(error),
                    ),
                Err(_) => false,
            },
    {
        let from = self.read_reg::<REG>()?;
        let ghost read = from;
        let to = f(from);
        let ghost wrote = to;
        let written = self.write_reg(to);
        proof {
            let outcome = if written is Ok {
                Ok(())
            } else {
                Err(written->Err_0->Bus_0)
            };
            assert(updated(
                old(self).history(),
                self.history(),
                REG::address(),
                read@,
                wrote@,
                outcome,
            ));
        }
        written
    }

    /// Sets one field of a register to `bits` by a single read-modify-write.
    fn set_field<REG: I2cRegister>(&mut self, field: Field<REG>, bits: u8) -> (set: Result<
        (),
        Error<I2C::Error>,
    >)
        requires
            field.well_formed(),
        ensures
            field_updated(old(self).history(), final(self).history(), field, bits, set),
    {
        let ghost target = field;
        let mutate = |reg: RegisterValue<REG>| -> (out: RegisterValue<REG>)
            ensures
                out@ == target.modify_spec(reg@, bits),
            {
                let mut reg = reg;
                reg.modify(field, bits);
                reg
            };
        self.modify_reg(mutate)
    }

    /// Reads whether the input is in high-impedance mode (`EN_HIZ`).
    pub fn is_input_high_z(&mut self) -> (high_z: Result<bool, Error<I2C::Error>>)
        ensures
            match high_z {
                Ok(enabled) => exists|byte: u8| #[trigger]
                    fetched(old(self).history(), final(self).history(), Reg00::address(), byte)
                        && enabled == Reg00::layout(Reg00Field::EnHiz).is_set_spec(byte),
                Err(Error::Bus(error)) => fetch_failed(
                    old(self).history(),
                    final(self).history(),
                    Reg00::address(),
                    error,
                ),
                Err(_) => false,
            },
    {
        Ok(self.read_reg::<Reg00>()?.is_set(Reg00::field(Reg00Field::EnHiz)))
    }

    /// Switches the high-impedance mode of the input (`EN_HIZ`) on or off.
    pub fn set_input_high_z(&mut self, en: bool) -> (set: Result<(), Error<I2C::Error>>)
        ensures
            field_updated(
                old(self).history(),
                final(self).history(),
                Reg00::layout(Reg00Field::EnHiz),
                if en { 1u8 } else { 0u8 },
                set,
            ),
    {
        self.set_field(Reg00::field(Reg00Field::EnHiz), if en { 1 } else { 0 })
    }

    /// Reads the input voltage limit (`VINDPM`).
    pub fn get_input_voltage_limit(&mut self) -> (limit: Result<
        InputVoltageLimit,
        Error<I2C::Error>,
    >)
        ensures
            field_fetched::<InputVoltageLimit, _>(
                old(self).history(),
                final(self).history(),
                limit,
            ),
    {
        Ok(self.read_reg::<Reg00>()?.read_enum::<InputVoltageLimit>())
    }

    /// Sets the input voltage limit (`VINDPM`).
    pub fn set_input_voltage_limit(&mut self, lim: InputVoltageLimit) -> (set: Result<
        (),
        Error<I2C::Error>,
    >)
        ensures
            field_updated(
                old(self).history(),
                final(self).history(),
                InputVoltageLimit::layout(),
                lim.code(),
                set,
            ),
    {
        self.set_field(InputVoltageLimit::field(), lim.bits())
    }

    /// Reads the input current limit (`IINLIM`).
    pub fn get_input_current_limit(&mut self) -> (limit: Result<
        InputCurrentLimit,
        Error<I2C::Error>,
    >)
        ensures
            field_fetched::<InputCurrentLimit, _>(
                old(self).history(),
                final(self).history(),
                limit,
            ),
    {
        Ok(self.read_reg::<Reg00>()?.read_enum::<InputCurrentLimit>())
    }

    /// Sets the input current limit (`IINLIM`).
    pub fn set_input_current_limit(&mut self, lim: InputCurrentLimit) -> (set: Result<
        (),
        Error<I2C::Error>,
    >)
        ensures
            field_updated(
                old(self).history(),
                final(self).history(),
                InputCurrentLimit::layout(),
                lim.code(),
                set,
            ),
    {
        self.set_field(InputCurrentLimit::field(), lim.bits())
    }

    /// Reads what is connected at the input (`VBUS_STAT`).
    pub fn vbus_status(&mut self) -> (status: Result<VBusStatus, Error<I2C::Error>>)
        ensures
            field_fetched::<VBusStatus, _>(old(self).history(), final(self).history(), status),
    {
        Ok(self.read_reg::<Reg08>()?.read_enum::<VBusStatus>())
    }

    /// Reads the charging state (`CHRG_STAT`).
    pub fn charger_status(&mut self) -> (status: Result<ChargerStatus, Error<I2C::Error>>)
        ensures
            field_fetched::<ChargerStatus, _>(old(self).history(), final(self).history(), status),
    {
        Ok(self.read_reg::<Reg08>()?.read_enum::<ChargerStatus>())
    }

    /// Sets the I2C watchdog timer (`WATCHDOG`).
    pub fn set_watchdog_timer(&mut self, timer: WatchdogTimer) -> (set: Result<
        (),
        Error<I2C::Error>,
    >)
        ensures
            field_updated(
                old(self).history(),
                final(self).history(),
                WatchdogTimer::layout(),
                timer.code(),
                set,
            ),
    {
        self.set_field(WatchdogTimer::field(), timer.bits())
    }

    /// Restarts the I2C watchdog timer by writing 1 to `WD_RESET`. The device
    /// clears the bit by itself; it is not read back.
    pub fn reset_watchdog_timer(&mut self) -> (reset: Result<(), Error<I2C::Error>>)
        ensures
            field_updated(
                old(self).history(),
                final(self).history(),
                Reg01::layout(Reg01Field::WdReset),
                1,
                reset,
            ),
    {
        self.set_field(Reg01::field(Reg01Field::WdReset), 1)
    }

    /// True if any of the faults are active: whether the fault register
    /// holds anything but zero. The register is not decoded, so a reserved
    /// code in it is no error here.
    pub fn has_fault(&mut self) -> (fault: Result<bool, Error<I2C::Error>>)
        ensures
            match fault {
                Ok(active) => exists|byte: u8| #[trigger]
                    fetched(old(self).history(), final(self).history(), Reg09::address(), byte)
                        && active == (byte != 0),
                Err(Error::Bus(error)) => fetch_failed(
                    old(self).history(),
                    final(self).history(),
                    Reg09::address(),
                    error,
                ),
                Err(_) => false,
            },
    {
        Ok(self.read_reg::<Reg09>()?.get() != 0)
    }

    /// Reads the fault register and decodes it.
    pub fn get_faults(&mut self) -> (faults: Result<Faults, Error<I2C::Error>>)
        ensures
            match faults {
                Ok(faults) => exists|byte: u8| #[trigger]
                    fetched(old(self).history(), final(self).history(), Reg09::address(), byte)
                        && Faults::decode(byte) == Some(faults),
                Err(Error::ParserError) => exists|byte: u8| #[trigger]
                    fetched(old(self).history(), final(self).history(), Reg09::address(), byte)
                        && Faults::decode(byte) is None,
                Err(Error::Bus(error)) => fetch_failed(
                    old(self).history(),
                    final(self).history(),
                    Reg09::address(),
                    error,
                ),
                Err(Error::UnknownDevice) => false,
            },
    {
        let reg = self.read_reg::<Reg09>()?;
        match Faults::try_from(reg) {
            Ok(faults) => Ok(faults),
            Err(_) => Err(Error::ParserError),
        }
    }
}

} // verus!
