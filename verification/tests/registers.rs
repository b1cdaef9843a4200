use bq24196::field::Field;
use bq24196::registers::{
    Enumeration, I2cRegister, Reg00, Reg00Field, Reg01, Reg01Field, Reg02, Reg02Field, Reg03,
    Reg03Field, Reg04, Reg04Field, Reg05, Reg05Field, Reg06, Reg06Field, Reg07, Reg07Field, Reg08,
    Reg08Field, Reg09, Reg09Field, Reg0A, Reg0AField, RegisterValue, DEFAULT_PN, LAST_ADDR,
};
use bq24196::types::{
    BatFault, BoostFault, ChargeFault, ChargerStatus, InputCurrentLimit, InputVoltageLimit,
    NtcFault, VBusStatus, WatchdogFault, WatchdogTimer,
};

/// The bits of the byte that a field covers, computed from offset and width.
fn mask_of<REG>(field: &Field<REG>) -> u8 {
    let mut mask = 0u8;
    for bit in field.offset..field.offset + field.width {
        mask |= 1 << bit;
    }
    mask
}

/// All fields of one register, as (offset, width) pairs in table order.
fn layout_of<REG: I2cRegister>(names: &[REG::FieldName]) -> Vec<(u8, u8)>
where
    REG::FieldName: Copy,
{
    names.iter().map(|name| {
        let field = REG::field(*name);
        (field.offset, field.width)
    }).collect()
}

fn assert_sound(layout: &[(u8, u8)]) {
    let mut used = 0u16;
    for (offset, width) in layout {
        assert!(*width >= 1);
        assert!(offset + width <= 8);
        let mask = ((1u16 << width) - 1) << offset;
        assert_eq!(used & mask, 0, "fields overlap in {:?}", layout);
        used |= mask;
    }
}

#[test]
fn register_addresses_follow_the_map() {
    assert_eq!(Reg00::ADDR, 0x00);
    assert_eq!(Reg01::ADDR, 0x01);
    assert_eq!(Reg02::ADDR, 0x02);
    assert_eq!(Reg03::ADDR, 0x03);
    assert_eq!(Reg04::ADDR, 0x04);
    assert_eq!(Reg05::ADDR, 0x05);
    assert_eq!(Reg06::ADDR, 0x06);
    assert_eq!(Reg07::ADDR, 0x07);
    assert_eq!(Reg08::ADDR, 0x08);
    assert_eq!(Reg09::ADDR, 0x09);
    assert_eq!(Reg0A::ADDR, 0x0A);
    assert_eq!(LAST_ADDR, 0x0A);
    assert_eq!(DEFAULT_PN, 0b101);
}

/// The tables of all eleven registers, by address.
fn layouts() -> Vec<Vec<(u8, u8)>> {
    vec![
        layout_of::<Reg00>(&[Reg00Field::EnHiz, Reg00Field::Vindpm, Reg00Field::Iinlim]),
        layout_of::<Reg01>(&[
            Reg01Field::RegReset,
            Reg01Field::WdReset,
            Reg01Field::ChgConfig,
            Reg01Field::SysMin,
            Reg01Field::BoostLim,
        ]),
        layout_of::<Reg02>(&[Reg02Field::Ichg, Reg02Field::Force20pct]),
        layout_of::<Reg03>(&[Reg03Field::Iprechg, Reg03Field::Iterm]),
        layout_of::<Reg04>(&[Reg04Field::Vreg, Reg04Field::Batlowv, Reg04Field::Vrechg]),
        layout_of::<Reg05>(&[
            Reg05Field::EnTerm,
            Reg05Field::TermStat,
            Reg05Field::Watchdog,
            Reg05Field::EnTimer,
            Reg05Field::ChgTimer,
        ]),
        layout_of::<Reg06>(&[Reg06Field::Treg]),
        layout_of::<Reg07>(&[
            Reg07Field::DpdmEn,
            Reg07Field::Tmr2xEn,
            Reg07Field::BatfetDis,
            Reg07Field::IntMask1,
            Reg07Field::IntMask0,
        ]),
        layout_of::<Reg08>(&[
            Reg08Field::VbusStat,
            Reg08Field::ChrgStat,
            Reg08Field::DpmStat,
            Reg08Field::PgStat,
        ]),
        layout_of::<Reg09>(&[
            Reg09Field::WatchdogFault,
            Reg09Field::BoostFault,
            Reg09Field::ChrgFault,
            Reg09Field::BatFault,
            Reg09Field::NtcFault,
        ]),
        layout_of::<Reg0A>(&[Reg0AField::Pn, Reg0AField::TsProfile, Reg0AField::DevReg]),
    ]
}

#[test]
fn field_tables_match_the_register_map() {
    let expected: Vec<Vec<(u8, u8)>> = vec![
        vec![(7, 1), (3, 4), (0, 3)],
        vec![(7, 1), (6, 1), (4, 2), (1, 3), (0, 1)],
        vec![(2, 6), (0, 1)],
        vec![(4, 4), (0, 4)],
        vec![(2, 6), (1, 1), (0, 1)],
        vec![(7, 1), (6, 1), (4, 2), (3, 1), (1, 2)],
        vec![(0, 2)],
        vec![(7, 1), (6, 1), (5, 1), (1, 1), (0, 1)],
        vec![(6, 2), (4, 2), (3, 1), (2, 1)],
        vec![(7, 1), (6, 1), (4, 2), (3, 1), (0, 3)],
        vec![(3, 3), (2, 1), (0, 2)],
    ];
    assert_eq!(layouts(), expected);
}

#[test]
fn fields_of_a_register_never_overlap() {
    for layout in layouts() {
        assert_sound(&layout);
    }
}

#[test]
fn no_field_is_wider_than_six_bits() {
    for layout in layouts() {
        for (_, width) in layout {
            assert!((1..=6).contains(&width));
        }
    }
}

#[test]
fn field_max_is_width_one_bits() {
    assert_eq!(Field::<Reg00>::new(7, 1).max(), 0b1);
    assert_eq!(Field::<Reg00>::new(4, 2).max(), 0b11);
    assert_eq!(Field::<Reg00>::new(0, 3).max(), 0b111);
    assert_eq!(Field::<Reg00>::new(3, 4).max(), 0b1111);
    assert_eq!(Field::<Reg00>::new(2, 6).max(), 0b11_1111);
    assert_eq!(Field::<Reg00>::new(0, 8).max(), 0xFF);
}

#[test]
fn field_read_extracts_the_field() {
    let vindpm = Reg00::field(Reg00Field::Vindpm);
    assert_eq!(vindpm.read(0b0101_1010), 0b1011);
    assert_eq!(vindpm.read(0b1000_0111), 0);
    assert_eq!(vindpm.read(0xFF), 0b1111);
    assert_eq!(Reg00::field(Reg00Field::Iinlim).read(0b1111_1011), 0b011);
    assert_eq!(Reg00::field(Reg00Field::EnHiz).read(0x80), 1);
    assert_eq!(Reg02::field(Reg02Field::Ichg).read(0b1010_1011), 0b10_1010);
    assert_eq!(Field::<Reg00>::new(0, 8).read(0xA5), 0xA5);
}

#[test]
fn field_read_agrees_with_shift_and_mask_for_every_byte() {
    for offset in 0..8u8 {
        for width in 1..=(8 - offset) {
            for byte in 0..=255u8 {
                let field = Field::<Reg00>::new(offset, width);
                let expected = ((byte as u16 >> offset) & ((1u16 << width) - 1)) as u8;
                assert_eq!(field.read(byte), expected);
            }
        }
    }
}

#[test]
fn field_is_set_looks_only_at_the_field() {
    let en_hiz = Reg00::field(Reg00Field::EnHiz);
    assert!(en_hiz.is_set(0x80));
    assert!(en_hiz.is_set(0xFF));
    assert!(!Reg00::field(Reg00Field::EnHiz).is_set(0x7F));
    assert!(!Reg00::field(Reg00Field::EnHiz).is_set(0x00));
    assert!(Reg00::field(Reg00Field::Vindpm).is_set(0b0000_1000));
    assert!(!Reg00::field(Reg00Field::Vindpm).is_set(0b1000_0111));
}

#[test]
fn field_modify_replaces_the_field() {
    assert_eq!(Reg00::field(Reg00Field::Iinlim).modify(0b1111_1000, 0b011), 0b1111_1011);
    assert_eq!(Reg00::field(Reg00Field::Vindpm).modify(0xFF, 0), 0b1000_0111);
    assert_eq!(Reg00::field(Reg00Field::Vindpm).modify(0x00, 0b1111), 0b0111_1000);
    assert_eq!(Reg00::field(Reg00Field::EnHiz).modify(0x35, 1), 0xB5);
    assert_eq!(Reg00::field(Reg00Field::EnHiz).modify(0xB5, 0), 0x35);
}

#[test]
fn field_modify_drops_bits_above_the_width() {
    assert_eq!(Reg00::field(Reg00Field::Iinlim).modify(0x00, 0xFF), 0b0000_0111);
    assert_eq!(Reg00::field(Reg00Field::EnHiz).modify(0x00, 0b10), 0x00);
    assert_eq!(Reg00::field(Reg00Field::EnHiz).modify(0x00, 0b11), 0x80);
}

#[test]
fn field_modify_changes_nothing_outside_the_field() {
    for offset in 0..8u8 {
        for width in 1..=(8 - offset) {
            let mask = mask_of(&Field::<Reg00>::new(offset, width));
            for byte in 0..=255u8 {
                for bits in [0x00u8, 0x01, 0x02, 0x05, 0x0A, 0x15, 0x2A, 0x55, 0xAA, 0xFF] {
                    let field = Field::<Reg00>::new(offset, width);
                    let modified = field.modify(byte, bits);
                    assert_eq!((modified ^ byte) & !mask, 0);
                    assert_eq!(field.read(modified), bits & field.max());
                }
            }
        }
    }
}

#[test]
fn field_modify_leaves_sibling_fields_alone() {
    for byte in 0..=255u8 {
        for code in 0..8u8 {
            let modified = Reg00::field(Reg00Field::Iinlim).modify(byte, code);
            assert_eq!(
                Reg00::field(Reg00Field::Vindpm).read(modified),
                Reg00::field(Reg00Field::Vindpm).read(byte)
            );
            assert_eq!(
                Reg00::field(Reg00Field::EnHiz).is_set(modified),
                Reg00::field(Reg00Field::EnHiz).is_set(byte)
            );
        }
    }
}

#[test]
fn register_value_keeps_the_raw_byte() {
    assert_eq!(RegisterValue::<Reg08>::new(0xA7).get(), 0xA7);
    assert_eq!(RegisterValue::<Reg08>::new(0).get(), 0);
}

#[test]
fn register_value_reads_and_tests_fields() {
    let reg = RegisterValue::<Reg00>::new(0b1011_0010);
    assert_eq!(reg.read(Reg00::field(Reg00Field::Vindpm)), 0b0110);
    assert_eq!(reg.read(Reg00::field(Reg00Field::Iinlim)), 0b010);
    assert!(reg.is_set(Reg00::field(Reg00Field::EnHiz)));
    assert!(!RegisterValue::<Reg00>::new(0x7F).is_set(Reg00::field(Reg00Field::EnHiz)));
}

#[test]
fn register_value_modify_sets_one_field() {
    let mut reg = RegisterValue::<Reg05>::new(0b1000_1010);
    reg.modify(Reg05::field(Reg05Field::Watchdog), 0b11);
    assert_eq!(reg.get(), 0b1011_1010);
    reg.modify(Reg05::field(Reg05Field::Watchdog), 0b00);
    assert_eq!(reg.get(), 0b1000_1010);
}

#[test]
fn register_value_read_as_enum_decodes_the_field() {
    let reg = RegisterValue::<Reg00>::new(0b0101_1011);
    assert_eq!(reg.read_as_enum::<InputVoltageLimit>(), Some(InputVoltageLimit::VINDPM_4_76V));
    assert_eq!(reg.read_as_enum::<InputCurrentLimit>(), Some(InputCurrentLimit::IINLIM_900mA));
    assert_eq!(reg.read_enum::<InputVoltageLimit>(), InputVoltageLimit::VINDPM_4_76V);
    assert_eq!(reg.read_enum::<InputCurrentLimit>(), InputCurrentLimit::IINLIM_900mA);
}

#[test]
fn register_value_read_as_enum_reports_reserved_codes() {
    assert_eq!(RegisterValue::<Reg09>::new(0b0000_0001).read_as_enum::<NtcFault>(), None);
    assert_eq!(RegisterValue::<Reg09>::new(0b1111_1111).read_as_enum::<NtcFault>(), None);
    assert_eq!(
        RegisterValue::<Reg09>::new(0b1111_1110).read_as_enum::<NtcFault>(),
        Some(NtcFault::Hot)
    );
}

/// Checks both directions of the round trip for one enumeration and returns
/// the number of patterns that stand for a value.
fn round_trip<E: Enumeration + Copy + PartialEq + core::fmt::Debug>(values: &[E]) -> usize {
    for value in values {
        assert_eq!(E::from_bits(value.bits()), Some(*value));
        assert!(value.bits() <= E::field().max());
    }
    let mut named = 0;
    for bits in 0..=255u8 {
        if let Some(value) = E::from_bits(bits) {
            assert_eq!(value.bits(), bits);
            assert!(values.contains(&value));
            named += 1;
        }
    }
    assert_eq!(named, values.len());
    named
}

#[test]
fn input_voltage_limit_round_trips() {
    let all = [
        InputVoltageLimit::VINDPM_3_88V,
        InputVoltageLimit::VINDPM_3_96V,
        InputVoltageLimit::VINDPM_4_04V,
        InputVoltageLimit::VINDPM_4_12V,
        InputVoltageLimit::VINDPM_4_20V,
        InputVoltageLimit::VINDPM_4_28V,
        InputVoltageLimit::VINDPM_4_36V,
        InputVoltageLimit::VINDPM_4_44V,
        InputVoltageLimit::VINDPM_4_52V,
        InputVoltageLimit::VINDPM_4_60V,
        InputVoltageLimit::VINDPM_4_68V,
        InputVoltageLimit::VINDPM_4_76V,
        InputVoltageLimit::VINDPM_4_84V,
        InputVoltageLimit::VINDPM_4_92V,
        InputVoltageLimit::VINDPM_5_00V,
        InputVoltageLimit::VINDPM_5_08V,
    ];
    assert_eq!(round_trip(&all), 16);
    for (code, value) in all.iter().enumerate() {
        assert_eq!(value.bits() as usize, code);
    }
    assert_eq!(InputVoltageLimit::from_bits(16), None);
}

#[test]
fn input_current_limit_round_trips() {
    let all = [
        InputCurrentLimit::IINLIM_100mA,
        InputCurrentLimit::IINLIM_150mA,
        InputCurrentLimit::IINLIM_500mA,
        InputCurrentLimit::IINLIM_900mA,
        InputCurrentLimit::IINLIM_1200mA,
        InputCurrentLimit::IINLIM_1500mA,
        InputCurrentLimit::IINLIM_2000mA,
        InputCurrentLimit::IINLIM_3000mA,
    ];
    assert_eq!(round_trip(&all), 8);
    for (code, value) in all.iter().enumerate() {
        assert_eq!(value.bits() as usize, code);
    }
    assert_eq!(InputCurrentLimit::IINLIM_100mA.bits(), 0b000);
    assert_eq!(InputCurrentLimit::IINLIM_900mA.bits(), 0b011);
    assert_eq!(InputCurrentLimit::IINLIM_3000mA.bits(), 0b111);
    assert_eq!(InputCurrentLimit::from_bits(8), None);
}

#[test]
fn watchdog_timer_round_trips() {
    assert_eq!(
        round_trip(&[
            WatchdogTimer::Disabled,
            WatchdogTimer::Timer_40s,
            WatchdogTimer::Timer_80s,
            WatchdogTimer::Timer_160s
        ]),
        4
    );
    assert_eq!(WatchdogTimer::Disabled.bits(), 0b00);
    assert_eq!(WatchdogTimer::Timer_40s.bits(), 0b01);
    assert_eq!(WatchdogTimer::Timer_80s.bits(), 0b10);
    assert_eq!(WatchdogTimer::Timer_160s.bits(), 0b11);
    assert_eq!(WatchdogTimer::from_bits(4), None);
}

#[test]
fn status_enumerations_round_trip() {
    assert_eq!(
        round_trip(&[
            VBusStatus::Unknown,
            VBusStatus::UsbHost,
            VBusStatus::Adapter,
            VBusStatus::Otg
        ]),
        4
    );
    assert_eq!(VBusStatus::from_bits(0b10), Some(VBusStatus::Adapter));
    assert_eq!(
        round_trip(&[
            ChargerStatus::NotCharging,
            ChargerStatus::PreCharge,
            ChargerStatus::FastCharging,
            ChargerStatus::ChargeTerminationDone
        ]),
        4
    );
    assert_eq!(ChargerStatus::from_bits(0b11), Some(ChargerStatus::ChargeTerminationDone));
}

#[test]
fn fault_enumerations_round_trip() {
    assert_eq!(round_trip(&[WatchdogFault::Normal, WatchdogFault::TimerExpired]), 2);
    assert_eq!(round_trip(&[BoostFault::Normal, BoostFault::Fault]), 2);
    assert_eq!(
        round_trip(&[
            ChargeFault::Normal,
            ChargeFault::InputFault,
            ChargeFault::ThermalShutdown,
            ChargeFault::SafetyTimer
        ]),
        4
    );
    assert_eq!(round_trip(&[BatFault::Normal, BatFault::Overvoltage]), 2);
    assert_eq!(round_trip(&[NtcFault::Normal, NtcFault::Cold, NtcFault::Hot]), 3);
}

#[test]
fn ntc_fault_names_three_of_eight_codes() {
    assert_eq!(NtcFault::from_bits(0b000), Some(NtcFault::Normal));
    assert_eq!(NtcFault::from_bits(0b101), Some(NtcFault::Cold));
    assert_eq!(NtcFault::from_bits(0b110), Some(NtcFault::Hot));
    for reserved in [0b001u8, 0b010, 0b011, 0b100, 0b111] {
        assert_eq!(NtcFault::from_bits(reserved), None);
    }
}

/// Where an enumeration lives: register address, offset and width.
fn place<E: Enumeration>() -> (u8, u8, u8) {
    let field = E::field();
    (E::Register::ADDR, field.offset, field.width)
}

#[test]
fn enumerations_sit_in_their_fields() {
    assert_eq!(place::<InputVoltageLimit>(), (0x00, 3, 4));
    assert_eq!(place::<InputCurrentLimit>(), (0x00, 0, 3));
    assert_eq!(place::<WatchdogTimer>(), (0x05, 4, 2));
    assert_eq!(place::<VBusStatus>(), (0x08, 6, 2));
    assert_eq!(place::<ChargerStatus>(), (0x08, 4, 2));
    assert_eq!(place::<WatchdogFault>(), (0x09, 7, 1));
    assert_eq!(place::<BoostFault>(), (0x09, 6, 1));
    assert_eq!(place::<ChargeFault>(), (0x09, 4, 2));
    assert_eq!(place::<BatFault>(), (0x09, 3, 1));
    assert_eq!(place::<NtcFault>(), (0x09, 0, 3));
}

#[test]
fn setting_an_enumerated_field_reads_back_as_the_value() {
    for byte in 0..=255u8 {
        let mut reg = RegisterValue::<Reg00>::new(byte);
        reg.modify(InputCurrentLimit::field(), InputCurrentLimit::IINLIM_900mA.bits());
        assert_eq!(reg.read_enum::<InputCurrentLimit>(), InputCurrentLimit::IINLIM_900mA);
        assert_eq!(
            reg.read(Reg00::field(Reg00Field::Vindpm)),
            Reg00::field(Reg00Field::Vindpm).read(byte)
        );
        assert_eq!(reg.get() & 0xF8, byte & 0xF8);
    }
}
