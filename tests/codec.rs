use drv8305::command::{FramingError, SpiCommand};
use drv8305::register::{
    CommOption, DecodeError, Flag, GateDriveControl, IcOperation, PwmMode, Register,
    VdsMode, VdsSenseControl, WarningAndWatchdog,
};

#[test]
fn it_works() {
    assert_eq!(2 + 2, 4);
}

#[test]
fn gate_drive_control_decodes_fields() {
    let g = GateDriveControl::parse(0x02a5).unwrap();
    assert_eq!(g.bits, 0x02a5);
    assert_eq!(g.comm_option, CommOption::Active);
    assert_eq!(g.pwm_mode, PwmMode::Three);
    assert_eq!(g.dead_time, 2);
    assert_eq!(g.tblank, 1);
    assert_eq!(g.tvds, 1);
}

#[test]
fn round_trip_keeps_every_bit() {
    for raw in [0x0000u16, 0x02a5, 0xf8a5, 0x7fff, 0xffff] {
        assert_eq!(WarningAndWatchdog::parse(raw).unwrap().data(), raw);
        assert_eq!(IcOperation::parse(raw).unwrap().data(), raw);
    }
    for raw in [0x0000u16, 0x02a5, 0xfe7f, 0x813f] {
        assert_eq!(GateDriveControl::parse(raw).unwrap().data(), raw);
    }
    assert_eq!(VdsSenseControl::parse(0x0052).unwrap().data(), 0x0052);
}

#[test]
fn setting_pwm_mode_changes_only_its_bits() {
    let g = GateDriveControl::parse(0x0000).unwrap().with_pwm_mode(PwmMode::One);
    assert_eq!(g.data(), 0b1_0000_0000);
    let g = GateDriveControl::parse(0xffff & !(0b11 << 7)).unwrap().with_pwm_mode(PwmMode::One);
    assert_eq!(g.data(), 0xffff & !(0b1 << 7));
}

#[test]
fn setters_compose_before_one_encode() {
    let g = GateDriveControl::parse(0x0000)
        .unwrap()
        .with_comm_option(CommOption::Active)
        .with_pwm_mode(PwmMode::One)
        .with_dead_time(5);
    assert_eq!(g.data(), (1 << 9) | (2 << 7) | (5 << 4));
}

#[test]
fn raw_field_is_cut_to_its_width() {
    let v = VdsSenseControl::parse(0x0000).unwrap().with_vds_level(0x1f);
    assert_eq!(v.data(), 0xf << 3);
}

#[test]
fn flag_setter_on_watchdog_register() {
    let w = WarningAndWatchdog::parse(0x0000).unwrap().with_otw(Flag::Enabled).with_fault(Flag::Enabled);
    assert_eq!(w.data(), 0b100_0000_0001);
}

#[test]
fn unknown_pwm_mode_is_rejected() {
    assert_eq!(
        GateDriveControl::parse(0b11 << 7),
        Err(DecodeError::InvalidFieldValue { field: 7, value: 3 })
    );
}

#[test]
fn unknown_vds_mode_is_rejected() {
    assert_eq!(
        VdsSenseControl::parse(0b101),
        Err(DecodeError::InvalidFieldValue { field: 0, value: 5 })
    );
    assert_eq!(VdsSenseControl::parse(0b010).unwrap().vds_mode, VdsMode::Disabled);
}

#[test]
fn addresses_follow_the_register_table() {
    assert_eq!(WarningAndWatchdog::addr(), 0x1);
    assert_eq!(GateDriveControl::addr(), 0x7);
    assert_eq!(IcOperation::addr(), 0x9);
    assert_eq!(VdsSenseControl::addr(), 0xc);
}

#[test]
fn read_frame_of_address_c() {
    assert_eq!(SpiCommand::<VdsSenseControl>::read().to_wire(), 0b1_1100_000_0000_0000);
    assert_eq!(SpiCommand::<VdsSenseControl>::read().to_wire(), 0xe000);
}

#[test]
fn write_frame_layout() {
    let cmd = SpiCommand::<GateDriveControl>::write(0x02a5).unwrap();
    assert_eq!(cmd.to_wire(), (0x7 << 11) | 0x02a5);
}

#[test]
fn payload_width_is_checked() {
    let ok = SpiCommand::<WarningAndWatchdog>::write(0b100_0000_0000);
    assert_eq!(ok.unwrap().to_wire(), (0x1 << 11) | 0b100_0000_0000);
    let wide = SpiCommand::<WarningAndWatchdog>::write(0b1_0000_0000_0000);
    assert!(matches!(wide, Err(FramingError::PayloadTooWide)));
    let eleven_bits = SpiCommand::<WarningAndWatchdog>::write(0x07ff);
    assert!(eleven_bits.is_ok());
    assert!(matches!(SpiCommand::<WarningAndWatchdog>::write(0x0800), Err(FramingError::PayloadTooWide)));
}
