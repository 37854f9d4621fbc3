//! The chip's registers: their addresses, field layouts and the codec
//! between a typed value and the 16-bit register word.
use vstd::prelude::*;
use crate::field::{
    field_mask, get_field, put_field, same_outside, get_bits, put_bits, group_field,
};

verus! {

broadcast use group_field;

/// Why a register word could not be decoded.
#[derive(Clone, Copy, Debug, PartialEq, Eq, Structural)]
pub enum DecodeError {
    /// The field at bit offset `field` holds `value`, which names no member
    /// of the field's enumeration.
    InvalidFieldValue { field: u8, value: u16 },
}

/// A register of the chip: a fixed address and a codec for its contents.
pub trait Register: Sized {
    /// The register's 4-bit address.
    spec fn addr_spec() -> u8;

    /// What decoding `raw` gives.
    spec fn decode_spec(raw: u16) -> Result<Self, DecodeError>;

    /// The register word of a value: its snapshot with each field written in.
    spec fn encode_spec(&self) -> u16;

    fn addr() -> (r: u8)
        ensures
            r == Self::addr_spec(),
            r < 16,
    ;

    /// Decodes a register word; fails on a field value outside its domain.
    fn parse(reg: u16) -> (r: Result<Self, DecodeError>)
        ensures
            r == Self::decode_spec(reg),
    ;

    /// Encodes the value into its register word.
    fn data(&self) -> (r: u16)
        ensures
            r == self.encode_spec(),
    ;

    /// Encoding what was decoded gives the word back.
    proof fn lemma_round_trip(raw: u16)
        requires
            Self::decode_spec(raw) is Ok,
        ensures
            Self::decode_spec(raw)->Ok_0.encode_spec() == raw,
    ;
}

/// For every register and every word whose fields all hold values of their
/// domains, encoding the decoded value gives the word back.
pub proof fn round_trip<R: Register>(raw: u16)
    requires
        R::decode_spec(raw) is Ok,
    ensures
        R::decode_spec(raw)->Ok_0.encode_spec() == raw,
{
    R::lemma_round_trip(raw);
}

/// A one-bit switch.
#[derive(Clone, Copy, Debug, PartialEq, Eq, Structural)]
pub enum Flag {
    Enabled,
    Disabled,
}

impl Flag {
    /// Bit value: `Enabled` is 1, `Disabled` is 0.
    pub open spec fn code(self) -> u16 {
        match self {
            Flag::Enabled => 1,
            Flag::Disabled => 0,
        }
    }

    pub open spec fn from_code(v: u16) -> Flag {
        if v == 1 {
            Flag::Enabled
        } else {
            Flag::Disabled
        }
    }

    pub fn to_u16(self) -> (r: u16)
        ensures
            r == self.code(),
    {
        match self {
            Flag::Enabled => 1,
            Flag::Disabled => 0,
        }
    }

    /// Decodes a one-bit field.
    pub fn from_bit(v: u16) -> (r: Flag)
        requires
            v <= 1,
        ensures
            r == Flag::from_code(v),
            r.code() == v,
    {
        if v == 1 {
            Flag::Enabled
        } else {
            Flag::Disabled
        }
    }
}

/// Freewheeling in one-input PWM mode.
#[derive(Clone, Copy, Debug, PartialEq, Eq, Structural)]
pub enum CommOption {
    /// Diode freewheeling: 0.
    Diode,
    /// Active freewheeling: 1.
    Active,
}

impl CommOption {
    pub open spec fn code(self) -> u16 {
        match self {
            CommOption::Diode => 0,
            CommOption::Active => 1,
        }
    }

    pub open spec fn from_code(v: u16) -> CommOption {
        if v == 1 {
            CommOption::Active
        } else {
            CommOption::Diode
        }
    }

    pub fn to_u16(self) -> (r: u16)
        ensures
            r == self.code(),
    {
        match self {
            CommOption::Diode => 0,
            CommOption::Active => 1,
        }
    }

    /// Decodes a one-bit field.
    pub fn from_bit(v: u16) -> (r: CommOption)
        requires
            v <= 1,
        ensures
            r == CommOption::from_code(v),
            r.code() == v,
    {
        if v == 1 {
            CommOption::Active
        } else {
            CommOption::Diode
        }
    }
}

/// PWM input mode.
#[derive(Clone, Copy, Debug, PartialEq, Eq, Structural)]
pub enum PwmMode {
    /// Six independent inputs: 0.
    Six,
    /// Three inputs: 1.
    Three,
    /// One input: 2.
    One,
}

impl PwmMode {
    pub open spec fn code(self) -> u16 {
        match self {
            PwmMode::Six => 0,
            PwmMode::Three => 1,
            PwmMode::One => 2,
        }
    }

    /// The member with code `v`, if any.
    pub open spec fn from_code(v: u16) -> Option<PwmMode> {
        if v == 0 {
            Some(PwmMode::Six)
        } else if v == 1 {
            Some(PwmMode::Three)
        } else if v == 2 {
            Some(PwmMode::One)
        } else {
            None
        }
    }

    pub fn to_u16(self) -> (r: u16)
        ensures
            r == self.code(),
    {
        match self {
            PwmMode::Six => 0,
            PwmMode::Three => 1,
            PwmMode::One => 2,
        }
    }

    pub fn from_u16(v: u16) -> (r: Option<PwmMode>)
        ensures
            r == PwmMode::from_code(v),
            r matches Some(m) ==> m.code() == v,
    {
        if v == 0 {
            Some(PwmMode::Six)
        } else if v == 1 {
            Some(PwmMode::Three)
        } else if v == 2 {
            Some(PwmMode::One)
        } else {
            None
        }
    }
}

/// What the chip does on a VDS overcurrent.
#[derive(Clone, Copy, Debug, PartialEq, Eq, Structural)]
pub enum VdsMode {
    /// Latch shutdown: 0.
    Latched,
    /// Report only: 1.
    Report,
    /// Disabled: 2.
    Disabled,
}

impl VdsMode {
    pub open spec fn code(self) -> u16 {
        match self {
            VdsMode::Latched => 0,
            VdsMode::Report => 1,
            VdsMode::Disabled => 2,
        }
    }

    /// The member with code `v`, if any.
    pub open spec fn from_code(v: u16) -> Option<VdsMode> {
        if v == 0 {
            Some(VdsMode::Latched)
        } else if v == 1 {
            Some(VdsMode::Report)
        } else if v == 2 {
            Some(VdsMode::Disabled)
        } else {
            None
        }
    }

    pub fn to_u16(self) -> (r: u16)
        ensures
            r == self.code(),
    {
        match self {
            VdsMode::Latched => 0,
            VdsMode::Report => 1,
            VdsMode::Disabled => 2,
        }
    }

    pub fn from_u16(v: u16) -> (r: Option<VdsMode>)
        ensures
            r == VdsMode::from_code(v),
            r matches Some(m) ==> m.code() == v,
    {
        if v == 0 {
            Some(VdsMode::Latched)
        } else if v == 1 {
            Some(VdsMode::Report)
        } else if v == 2 {
            Some(VdsMode::Disabled)
        } else {
            None
        }
    }
}

/// The IC operation register, address `0x9`.
///
/// `bits` is the snapshot the value was decoded from; bits outside the
/// fields keep their value through an encode.
#[derive(Clone, Copy, Debug, PartialEq, Eq, Structural)]
pub struct IcOperation {
    pub bits: u16,
    /// Bit 7.
    pub en_sns_clamp: Flag,
    /// Bit 3.
    pub wd_en: Flag,
}

impl IcOperation {
    /// Every field holds what the snapshot's bits say.
    pub open spec fn in_sync(&self) -> bool {
        self.en_sns_clamp.code() == get_field(self.bits, 1, 7)
            && self.wd_en.code() == get_field(self.bits, 1, 3)
    }

    /// Sets `en_sns_clamp`; the other fields and the snapshot stay. On a value
    /// in sync with its snapshot, encoding the result changes
    /// bit 7 of the snapshot only, and those hold the new value.
    pub fn with_en_sns_clamp(self, v: Flag) -> (r: Self)
        ensures
            r == (IcOperation { en_sns_clamp: v, ..self }),
            self.in_sync() ==> r.encode_spec() == put_field(self.bits, 1, 7, v.code()),
            self.in_sync() ==> same_outside(r.encode_spec(), self.bits, 1, 7),
            get_field(r.encode_spec(), 1, 7) == v.code() & field_mask(1),
    {
        IcOperation { en_sns_clamp: v, ..self }
    }

    /// Sets `wd_en`; the other fields and the snapshot stay. On a value
    /// in sync with its snapshot, encoding the result changes
    /// bit 3 of the snapshot only, and those hold the new value.
    pub fn with_wd_en(self, v: Flag) -> (r: Self)
        ensures
            r == (IcOperation { wd_en: v, ..self }),
            self.in_sync() ==> r.encode_spec() == put_field(self.bits, 1, 3, v.code()),
            self.in_sync() ==> same_outside(r.encode_spec(), self.bits, 1, 3),
            get_field(r.encode_spec(), 1, 3) == v.code() & field_mask(1),
    {
        IcOperation { wd_en: v, ..self }
    }

}

impl Register for IcOperation {
    open spec fn addr_spec() -> u8 {
        0x9
    }

    open spec fn decode_spec(raw: u16) -> Result<Self, DecodeError> {
        Ok(IcOperation {
            bits: raw,
            en_sns_clamp: Flag::from_code(get_field(raw, 1, 7)),
            wd_en: Flag::from_code(get_field(raw, 1, 3)),
        })
    }

    open spec fn encode_spec(&self) -> u16 {
        put_field(put_field(self.bits, 1, 7, self.en_sns_clamp.code()), 1, 3, self.wd_en.code())
    }

    fn addr() -> (r: u8) {
        0x9
    }

    fn parse(reg: u16) -> (r: Result<Self, DecodeError>) {
        let en_sns_clamp = Flag::from_bit(get_bits(reg, 1, 7));
        let wd_en = Flag::from_bit(get_bits(reg, 1, 3));
        Ok(IcOperation { bits: reg, en_sns_clamp, wd_en })
    }

    fn data(&self) -> (r: u16) {
        let mut data = self.bits;
        data = put_bits(data, 1, 7, self.en_sns_clamp.to_u16());
        data = put_bits(data, 1, 3, self.wd_en.to_u16());
        data
    }

    proof fn lemma_round_trip(raw: u16) {
    }
}

/// The VDS sense control register, address `0xc`.
///
/// `bits` is the snapshot the value was decoded from; bits outside the
/// fields keep their value through an encode.
#[derive(Clone, Copy, Debug, PartialEq, Eq, Structural)]
pub struct VdsSenseControl {
    pub bits: u16,
    /// Bits 6..3.
    pub vds_level: u16,
    /// Bits 2..0.
    pub vds_mode: VdsMode,
}

impl VdsSenseControl {
    /// Every field holds what the snapshot's bits say.
    pub open spec fn in_sync(&self) -> bool {
        self.vds_level == get_field(self.bits, 4, 3)
            && self.vds_mode.code() == get_field(self.bits, 3, 0)
    }

    /// Sets `vds_level`; the other fields and the snapshot stay. On a value
    /// in sync with its snapshot, encoding the result changes
    /// bits 6..3 of the snapshot only, and those hold the new value.
    pub fn with_vds_level(self, v: u16) -> (r: Self)
        ensures
            r == (VdsSenseControl { vds_level: v, ..self }),
            self.in_sync() ==> r.encode_spec() == put_field(self.bits, 4, 3, v),
            self.in_sync() ==> same_outside(r.encode_spec(), self.bits, 4, 3),
            get_field(r.encode_spec(), 4, 3) == v & field_mask(4),
    {
        VdsSenseControl { vds_level: v, ..self }
    }

    /// Sets `vds_mode`; the other fields and the snapshot stay. On a value
    /// in sync with its snapshot, encoding the result changes
    /// bits 2..0 of the snapshot only, and those hold the new value.
    pub fn with_vds_mode(self, v: VdsMode) -> (r: Self)
        ensures
            r == (VdsSenseControl { vds_mode: v, ..self }),
            self.in_sync() ==> r.encode_spec() == put_field(self.bits, 3, 0, v.code()),
            self.in_sync() ==> same_outside(r.encode_spec(), self.bits, 3, 0),
            get_field(r.encode_spec(), 3, 0) == v.code() & field_mask(3),
    {
        VdsSenseControl { vds_mode: v, ..self }
    }

}

impl Register for VdsSenseControl {
    open spec fn addr_spec() -> u8 {
        0xc
    }

    open spec fn decode_spec(raw: u16) -> Result<Self, DecodeError> {
        if VdsMode::from_code(get_field(raw, 3, 0)) is None {
            Err(DecodeError::InvalidFieldValue { field: 0, value: get_field(raw, 3, 0) })
        } else {
            Ok(VdsSenseControl {
            bits: raw,
            vds_level: get_field(raw, 4, 3),
            vds_mode: VdsMode::from_code(get_field(raw, 3, 0))->Some_0,
        })
        }
    }

    open spec fn encode_spec(&self) -> u16 {
        put_field(put_field(self.bits, 4, 3, self.vds_level), 3, 0, self.vds_mode.code())
    }

    fn addr() -> (r: u8) {
        0xc
    }

    fn parse(reg: u16) -> (r: Result<Self, DecodeError>) {
        let vds_level = get_bits(reg, 4, 3);
        let vds_mode_raw = get_bits(reg, 3, 0);
        let vds_mode = match VdsMode::from_u16(vds_mode_raw) {
            Some(x) => x,
            None => {
                return Err(DecodeError::InvalidFieldValue { field: 0, value: vds_mode_raw });
            },
        };
        Ok(VdsSenseControl { bits: reg, vds_level, vds_mode })
    }

    fn data(&self) -> (r: u16) {
        let mut data = self.bits;
        data = put_bits(data, 4, 3, self.vds_level);
        data = put_bits(data, 3, 0, self.vds_mode.to_u16());
        data
    }

    proof fn lemma_round_trip(raw: u16) {
    }
}

/// The shunt amplifier control register, address `0xa`.
///
/// `bits` is the snapshot the value was decoded from; bits outside the
/// fields keep their value through an encode.
#[derive(Clone, Copy, Debug, PartialEq, Eq, Structural)]
pub struct ShuntAmplifierControl {
    pub bits: u16,
    /// Bit 10.
    pub dc_cal_ch3: Flag,
    /// Bit 9.
    pub dc_cal_ch2: Flag,
    /// Bit 8.
    pub dc_cal_ch1: Flag,
    /// Bits 7..6.
    pub cs_blank: u16,
    /// Bits 5..4.
    pub gain_cs3: u16,
    /// Bits 3..2.
    pub gain_cs2: u16,
    /// Bits 1..0.
    pub gain_cs1: u16,
}

impl ShuntAmplifierControl {
    /// Every field holds what the snapshot's bits say.
    pub open spec fn in_sync(&self) -> bool {
        self.dc_cal_ch3.code() == get_field(self.bits, 1, 10)
            && self.dc_cal_ch2.code() == get_field(self.bits, 1, 9)
            && self.dc_cal_ch1.code() == get_field(self.bits, 1, 8)
            && self.cs_blank == get_field(self.bits, 2, 6)
            && self.gain_cs3 == get_field(self.bits, 2, 4)
            && self.gain_cs2 == get_field(self.bits, 2, 2)
            && self.gain_cs1 == get_field(self.bits, 2, 0)
    }

    /// Sets `dc_cal_ch3`; the other fields and the snapshot stay. On a value
    /// in sync with its snapshot, encoding the result changes
    /// bit 10 of the snapshot only, and those hold the new value.
    pub fn with_dc_cal_ch3(self, v: Flag) -> (r: Self)
        ensures
            r == (ShuntAmplifierControl { dc_cal_ch3: v, ..self }),
            self.in_sync() ==> r.encode_spec() == put_field(self.bits, 1, 10, v.code()),
            self.in_sync() ==> same_outside(r.encode_spec(), self.bits, 1, 10),
            get_field(r.encode_spec(), 1, 10) == v.code() & field_mask(1),
    {
        ShuntAmplifierControl { dc_cal_ch3: v, ..self }
    }

    /// Sets `dc_cal_ch2`; the other fields and the snapshot stay. On a value
    /// in sync with its snapshot, encoding the result changes
    /// bit 9 of the snapshot only, and those hold the new value.
    pub fn with_dc_cal_ch2(self, v: Flag) -> (r: Self)
        ensures
            r == (ShuntAmplifierControl { dc_cal_ch2: v, ..self }),
            self.in_sync() ==> r.encode_spec() == put_field(self.bits, 1, 9, v.code()),
            self.in_sync() ==> same_outside(r.encode_spec(), self.bits, 1, 9),
            get_field(r.encode_spec(), 1, 9) == v.code() & field_mask(1),
    {
        ShuntAmplifierControl { dc_cal_ch2: v, ..self }
    }

    /// Sets `dc_cal_ch1`; the other fields and the snapshot stay. On a value
    /// in sync with its snapshot, encoding the result changes
    /// bit 8 of the snapshot only, and those hold the new value.
    pub fn with_dc_cal_ch1(self, v: Flag) -> (r: Self)
        ensures
            r == (ShuntAmplifierControl { dc_cal_ch1: v, ..self }),
            self.in_sync() ==> r.encode_spec() == put_field(self.bits, 1, 8, v.code()),
            self.in_sync() ==> same_outside(r.encode_spec(), self.bits, 1, 8),
            get_field(r.encode_spec(), 1, 8) == v.code() & field_mask(1),
    {
        ShuntAmplifierControl { dc_cal_ch1: v, ..self }
    }

    /// Sets `cs_blank`; the other fields and the snapshot stay. On a value
    /// in sync with its snapshot, encoding the result changes
    /// bits 7..6 of the snapshot only, and those hold the new value.
    pub fn with_cs_blank(self, v: u16) -> (r: Self)
        ensures
            r == (ShuntAmplifierControl { cs_blank: v, ..self }),
            self.in_sync() ==> r.encode_spec() == put_field(self.bits, 2, 6, v),
            self.in_sync() ==> same_outside(r.encode_spec(), self.bits, 2, 6),
            get_field(r.encode_spec(), 2, 6) == v & field_mask(2),
    {
        ShuntAmplifierControl { cs_blank: v, ..self }
    }

    /// Sets `gain_cs3`; the other fields and the snapshot stay. On a value
    /// in sync with its snapshot, encoding the result changes
    /// bits 5..4 of the snapshot only, and those hold the new value.
    pub fn with_gain_cs3(self, v: u16) -> (r: Self)
        ensures
            r == (ShuntAmplifierControl { gain_cs3: v, ..self }),
            self.in_sync() ==> r.encode_spec() == put_field(self.bits, 2, 4, v),
            self.in_sync() ==> same_outside(r.encode_spec(), self.bits, 2, 4),
            get_field(r.encode_spec(), 2, 4) == v & field_mask(2),
    {
        ShuntAmplifierControl { gain_cs3: v, ..self }
    }

    /// Sets `gain_cs2`; the other fields and the snapshot stay. On a value
    /// in sync with its snapshot, encoding the result changes
    /// bits 3..2 of the snapshot only, and those hold the new value.
    pub fn with_gain_cs2(self, v: u16) -> (r: Self)
        ensures
            r == (ShuntAmplifierControl { gain_cs2: v, ..self }),
            self.in_sync() ==> r.encode_spec() == put_field(self.bits, 2, 2, v),
            self.in_sync() ==> same_outside(r.encode_spec(), self.bits, 2, 2),
            get_field(r.encode_spec(), 2, 2) == v & field_mask(2),
    {
        ShuntAmplifierControl { gain_cs2: v, ..self }
    }

    /// Sets `gain_cs1`; the other fields and the snapshot stay. On a value
    /// in sync with its snapshot, encoding the result changes
    /// bits 1..0 of the snapshot only, and those hold the new value.
    pub fn with_gain_cs1(self, v: u16) -> (r: Self)
        ensures
            r == (ShuntAmplifierControl { gain_cs1: v, ..self }),
            self.in_sync() ==> r.encode_spec() == put_field(self.bits, 2, 0, v),
            self.in_sync() ==> same_outside(r.encode_spec(), self.bits, 2, 0),
            get_field(r.encode_spec(), 2, 0) == v & field_mask(2),
    {
        ShuntAmplifierControl { gain_cs1: v, ..self }
    }

}

impl Register for ShuntAmplifierControl {
    open spec fn addr_spec() -> u8 {
        0xa
    }

    open spec fn decode_spec(raw: u16) -> Result<Self, DecodeError> {
        Ok(ShuntAmplifierControl {
            bits: raw,
            dc_cal_ch3: Flag::from_code(get_field(raw, 1, 10)),
            dc_cal_ch2: Flag::from_code(get_field(raw, 1, 9)),
            dc_cal_ch1: Flag::from_code(get_field(raw, 1, 8)),
            cs_blank: get_field(raw, 2, 6),
            gain_cs3: get_field(raw, 2, 4),
            gain_cs2: get_field(raw, 2, 2),
            gain_cs1: get_field(raw, 2, 0),
        })
    }

    open spec fn encode_spec(&self) -> u16 {
        put_field(put_field(put_field(put_field(put_field(put_field(put_field(self.bits, 1, 10, self.dc_cal_ch3.code()), 1, 9, self.dc_cal_ch2.code()), 1, 8, self.dc_cal_ch1.code()), 2, 6, self.cs_blank), 2, 4, self.gain_cs3), 2, 2, self.gain_cs2), 2, 0, self.gain_cs1)
    }

    fn addr() -> (r: u8) {
        0xa
    }

    fn parse(reg: u16) -> (r: Result<Self, DecodeError>) {
        let dc_cal_ch3 = Flag::from_bit(get_bits(reg, 1, 10));
        let dc_cal_ch2 = Flag::from_bit(get_bits(reg, 1, 9));
        let dc_cal_ch1 = Flag::from_bit(get_bits(reg, 1, 8));
        let cs_blank = get_bits(reg, 2, 6);
        let gain_cs3 = get_bits(reg, 2, 4);
        let gain_cs2 = get_bits(reg, 2, 2);
        let gain_cs1 = get_bits(reg, 2, 0);
        Ok(ShuntAmplifierControl { bits: reg, dc_cal_ch3, dc_cal_ch2, dc_cal_ch1, cs_blank, gain_cs3, gain_cs2, gain_cs1 })
    }

    fn data(&self) -> (r: u16) {
        let mut data = self.bits;
        data = put_bits(data, 1, 10, self.dc_cal_ch3.to_u16());
        data = put_bits(data, 1, 9, self.dc_cal_ch2.to_u16());
        data = put_bits(data, 1, 8, self.dc_cal_ch1.to_u16());
        data = put_bits(data, 2, 6, self.cs_blank);
        data = put_bits(data, 2, 4, self.gain_cs3);
        data = put_bits(data, 2, 2, self.gain_cs2);
        data = put_bits(data, 2, 0, self.gain_cs1);
        data
    }

    proof fn lemma_round_trip(raw: u16) {
    }
}

/// The `GateDriveControl` register, address `0x7`.
///
/// `bits` is the snapshot the value was decoded from; bits outside the
/// fields keep their value through an encode.
#[derive(Clone, Copy, Debug, PartialEq, Eq, Structural)]
pub struct GateDriveControl {
    pub bits: u16,
    /// Bit 9.
    pub comm_option: CommOption,
    /// Bits 8..7.
    pub pwm_mode: PwmMode,
    /// Bits 6..4.
    pub dead_time: u8,
    /// Bits 3..2.
    pub tblank: u8,
    /// Bits 1..0.
    pub tvds: u8,
}

impl GateDriveControl {
    /// Every field holds what the snapshot's bits say.
    pub open spec fn in_sync(&self) -> bool {
        self.comm_option.code() == get_field(self.bits, 1, 9)
            && self.pwm_mode.code() == get_field(self.bits, 2, 7)
            && self.dead_time as u16 == get_field(self.bits, 3, 4)
            && self.tblank as u16 == get_field(self.bits, 2, 2)
            && self.tvds as u16 == get_field(self.bits, 2, 0)
    }

    /// Sets `comm_option`; the other fields and the snapshot stay. On a value
    /// in sync with its snapshot, encoding the result changes
    /// bit 9 of the snapshot only, and those hold the new value.
    pub fn with_comm_option(self, v: CommOption) -> (r: Self)
        ensures
            r == (GateDriveControl { comm_option: v, ..self }),
            self.in_sync() ==> r.encode_spec() == put_field(self.bits, 1, 9, v.code()),
            self.in_sync() ==> same_outside(r.encode_spec(), self.bits, 1, 9),
            get_field(r.encode_spec(), 1, 9) == v.code() & field_mask(1),
    {
        GateDriveControl { comm_option: v, ..self }
    }

    /// Sets `pwm_mode`; the other fields and the snapshot stay. On a value
    /// in sync with its snapshot, encoding the result changes
    /// bits 8..7 of the snapshot only, and those hold the new value.
    pub fn with_pwm_mode(self, v: PwmMode) -> (r: Self)
        ensures
            r == (GateDriveControl { pwm_mode: v, ..self }),
            self.in_sync() ==> r.encode_spec() == put_field(self.bits, 2, 7, v.code()),
            self.in_sync() ==> same_outside(r.encode_spec(), self.bits, 2, 7),
            get_field(r.encode_spec(), 2, 7) == v.code() & field_mask(2),
    {
        GateDriveControl { pwm_mode: v, ..self }
    }

    /// Sets `dead_time`; the other fields and the snapshot stay. On a value
    /// in sync with its snapshot, encoding the result changes
    /// bits 6..4 of the snapshot only, and those hold the new value.
    pub fn with_dead_time(self, v: u8) -> (r: Self)
        ensures
            r == (GateDriveControl { dead_time: v, ..self }),
            self.in_sync() ==> r.encode_spec() == put_field(self.bits, 3, 4, v as u16),
            self.in_sync() ==> same_outside(r.encode_spec(), self.bits, 3, 4),
            get_field(r.encode_spec(), 3, 4) == v as u16 & field_mask(3),
    {
        GateDriveControl { dead_time: v, ..self }
    }

    /// Sets `tblank`; the other fields and the snapshot stay. On a value
    /// in sync with its snapshot, encoding the result changes
    /// bits 3..2 of the snapshot only, and those hold the new value.
    pub fn with_tblank(self, v: u8) -> (r: Self)
        ensures
            r == (GateDriveControl { tblank: v, ..self }),
            self.in_sync() ==> r.encode_spec() == put_field(self.bits, 2, 2, v as u16),
            self.in_sync() ==> same_outside(r.encode_spec(), self.bits, 2, 2),
            get_field(r.encode_spec(), 2, 2) == v as u16 & field_mask(2),
    {
        GateDriveControl { tblank: v, ..self }
    }

    /// Sets `tvds`; the other fields and the snapshot stay. On a value
    /// in sync with its snapshot, encoding the result changes
    /// bits 1..0 of the snapshot only, and those hold the new value.
    pub fn with_tvds(self, v: u8) -> (r: Self)
        ensures
            r == (GateDriveControl { tvds: v, ..self }),
            self.in_sync() ==> r.encode_spec() == put_field(self.bits, 2, 0, v as u16),
            self.in_sync() ==> same_outside(r.encode_spec(), self.bits, 2, 0),
            get_field(r.encode_spec(), 2, 0) == v as u16 & field_mask(2),
    {
        GateDriveControl { tvds: v, ..self }
    }

}

impl Register for GateDriveControl {
    open spec fn addr_spec() -> u8 {
        0x7
    }

    open spec fn decode_spec(raw: u16) -> Result<Self, DecodeError> {
        if PwmMode::from_code(get_field(raw, 2, 7)) is None {
            Err(DecodeError::InvalidFieldValue { field: 7, value: get_field(raw, 2, 7) })
        } else {
            Ok(GateDriveControl {
            bits: raw,
            comm_option: CommOption::from_code(get_field(raw, 1, 9)),
            pwm_mode: PwmMode::from_code(get_field(raw, 2, 7))->Some_0,
            dead_time: get_field(raw, 3, 4) as u8,
            tblank: get_field(raw, 2, 2) as u8,
            tvds: get_field(raw, 2, 0) as u8,
        })
        }
    }

    open spec fn encode_spec(&self) -> u16 {
        put_field(put_field(put_field(put_field(put_field(self.bits, 1, 9, self.comm_option.code()), 2, 7, self.pwm_mode.code()), 3, 4, self.dead_time as u16), 2, 2, self.tblank as u16), 2, 0, self.tvds as u16)
    }

    fn addr() -> (r: u8) {
        0x7
    }

    fn parse(reg: u16) -> (r: Result<Self, DecodeError>) {
        let comm_option = CommOption::from_bit(get_bits(reg, 1, 9));
        let pwm_mode_raw = get_bits(reg, 2, 7);
        let pwm_mode = match PwmMode::from_u16(pwm_mode_raw) {
            Some(x) => x,
            None => {
                return Err(DecodeError::InvalidFieldValue { field: 7, value: pwm_mode_raw });
            },
        };
        let dead_time = get_bits(reg, 3, 4) as u8;
        let tblank = get_bits(reg, 2, 2) as u8;
        let tvds = get_bits(reg, 2, 0) as u8;
        Ok(GateDriveControl { bits: reg, comm_option, pwm_mode, dead_time, tblank, tvds })
    }

    fn data(&self) -> (r: u16) {
        let mut data = self.bits;
        data = put_bits(data, 1, 9, self.comm_option.to_u16());
        data = put_bits(data, 2, 7, self.pwm_mode.to_u16());
        data = put_bits(data, 3, 4, self.dead_time as u16);
        data = put_bits(data, 2, 2, self.tblank as u16);
        data = put_bits(data, 2, 0, self.tvds as u16);
        data
    }

    proof fn lemma_round_trip(raw: u16) {
    }
}

/// The warning and watchdog reset register (read only on the chip), address `0x1`.
///
/// `bits` is the snapshot the value was decoded from; bits outside the
/// fields keep their value through an encode.
#[derive(Clone, Copy, Debug, PartialEq, Eq, Structural)]
pub struct WarningAndWatchdog {
    pub bits: u16,
    /// Bit 10.
    pub fault: Flag,
    /// Bit 8.
    pub temp_flag4: Flag,
    /// Bit 7.
    pub pvdd_uv: Flag,
    /// Bit 6.
    pub pvdd_ov: Flag,
    /// Bit 5.
    pub vds_status: Flag,
    /// Bit 4.
    pub vchp_uvfl: Flag,
    /// Bit 3.
    pub temp_flag1: Flag,
    /// Bit 2.
    pub temp_flag2: Flag,
    /// Bit 1.
    pub temp_flag3: Flag,
    /// Bit 0.
    pub otw: Flag,
}

impl WarningAndWatchdog {
    /// Sets `fault`; the other fields and the snapshot stay.
    pub fn with_fault(self, v: Flag) -> (r: Self)
        ensures
            r == (WarningAndWatchdog { fault: v, ..self }),
    {
        WarningAndWatchdog { fault: v, ..self }
    }

    /// Sets `temp_flag4`; the other fields and the snapshot stay.
    pub fn with_temp_flag4(self, v: Flag) -> (r: Self)
        ensures
            r == (WarningAndWatchdog { temp_flag4: v, ..self }),
    {
        WarningAndWatchdog { temp_flag4: v, ..self }
    }

    /// Sets `pvdd_uv`; the other fields and the snapshot stay.
    pub fn with_pvdd_uv(self, v: Flag) -> (r: Self)
        ensures
            r == (WarningAndWatchdog { pvdd_uv: v, ..self }),
    {
        WarningAndWatchdog { pvdd_uv: v, ..self }
    }

    /// Sets `pvdd_ov`; the other fields and the snapshot stay.
    pub fn with_pvdd_ov(self, v: Flag) -> (r: Self)
        ensures
            r == (WarningAndWatchdog { pvdd_ov: v, ..self }),
    {
        WarningAndWatchdog { pvdd_ov: v, ..self }
    }

    /// Sets `vds_status`; the other fields and the snapshot stay.
    pub fn with_vds_status(self, v: Flag) -> (r: Self)
        ensures
            r == (WarningAndWatchdog { vds_status: v, ..self }),
    {
        WarningAndWatchdog { vds_status: v, ..self }
    }

    /// Sets `vchp_uvfl`; the other fields and the snapshot stay.
    pub fn with_vchp_uvfl(self, v: Flag) -> (r: Self)
        ensures
            r == (WarningAndWatchdog { vchp_uvfl: v, ..self }),
    {
        WarningAndWatchdog { vchp_uvfl: v, ..self }
    }

    /// Sets `temp_flag1`; the other fields and the snapshot stay.
    pub fn with_temp_flag1(self, v: Flag) -> (r: Self)
        ensures
            r == (WarningAndWatchdog { temp_flag1: v, ..self }),
    {
        WarningAndWatchdog { temp_flag1: v, ..self }
    }

    /// Sets `temp_flag2`; the other fields and the snapshot stay.
    pub fn with_temp_flag2(self, v: Flag) -> (r: Self)
        ensures
            r == (WarningAndWatchdog { temp_flag2: v, ..self }),
    {
        WarningAndWatchdog { temp_flag2: v, ..self }
    }

    /// Sets `temp_flag3`; the other fields and the snapshot stay.
    pub fn with_temp_flag3(self, v: Flag) -> (r: Self)
        ensures
            r == (WarningAndWatchdog { temp_flag3: v, ..self }),
    {
        WarningAndWatchdog { temp_flag3: v, ..self }
    }

    /// Sets `otw`; the other fields and the snapshot stay.
    pub fn with_otw(self, v: Flag) -> (r: Self)
        ensures
            r == (WarningAndWatchdog { otw: v, ..self }),
    {
        WarningAndWatchdog { otw: v, ..self }
    }

}

impl Register for WarningAndWatchdog {
    open spec fn addr_spec() -> u8 {
        0x1
    }

    open spec fn decode_spec(raw: u16) -> Result<Self, DecodeError> {
        Ok(WarningAndWatchdog {
            bits: raw,
            fault: Flag::from_code(get_field(raw, 1, 10)),
            temp_flag4: Flag::from_code(get_field(raw, 1, 8)),
            pvdd_uv: Flag::from_code(get_field(raw, 1, 7)),
            pvdd_ov: Flag::from_code(get_field(raw, 1, 6)),
            vds_status: Flag::from_code(get_field(raw, 1, 5)),
            vchp_uvfl: Flag::from_code(get_field(raw, 1, 4)),
            temp_flag1: Flag::from_code(get_field(raw, 1, 3)),
            temp_flag2: Flag::from_code(get_field(raw, 1, 2)),
            temp_flag3: Flag::from_code(get_field(raw, 1, 1)),
            otw: Flag::from_code(get_field(raw, 1, 0)),
        })
    }

    open spec fn encode_spec(&self) -> u16 {
        put_field(put_field(put_field(put_field(put_field(put_field(put_field(put_field(put_field(put_field(self.bits, 1, 10, self.fault.code()), 1, 8, self.temp_flag4.code()), 1, 7, self.pvdd_uv.code()), 1, 6, self.pvdd_ov.code()), 1, 5, self.vds_status.code()), 1, 4, self.vchp_uvfl.code()), 1, 3, self.temp_flag1.code()), 1, 2, self.temp_flag2.code()), 1, 1, self.temp_flag3.code()), 1, 0, self.otw.code())
    }

    fn addr() -> (r: u8) {
        0x1
    }

    fn parse(reg: u16) -> (r: Result<Self, DecodeError>) {
        let fault = Flag::from_bit(get_bits(reg, 1, 10));
        let temp_flag4 = Flag::from_bit(get_bits(reg, 1, 8));
        let pvdd_uv = Flag::from_bit(get_bits(reg, 1, 7));
        let pvdd_ov = Flag::from_bit(get_bits(reg, 1, 6));
        let vds_status = Flag::from_bit(get_bits(reg, 1, 5));
        let vchp_uvfl = Flag::from_bit(get_bits(reg, 1, 4));
        let temp_flag1 = Flag::from_bit(get_bits(reg, 1, 3));
        let temp_flag2 = Flag::from_bit(get_bits(reg, 1, 2));
        let temp_flag3 = Flag::from_bit(get_bits(reg, 1, 1));
        let otw = Flag::from_bit(get_bits(reg, 1, 0));
        Ok(WarningAndWatchdog { bits: reg, fault, temp_flag4, pvdd_uv, pvdd_ov, vds_status, vchp_uvfl, temp_flag1, temp_flag2, temp_flag3, otw })
    }

    fn data(&self) -> (r: u16) {
        let mut data = self.bits;
        data = put_bits(data, 1, 10, self.fault.to_u16());
        data = put_bits(data, 1, 8, self.temp_flag4.to_u16());
        data = put_bits(data, 1, 7, self.pvdd_uv.to_u16());
        data = put_bits(data, 1, 6, self.pvdd_ov.to_u16());
        data = put_bits(data, 1, 5, self.vds_status.to_u16());
        data = put_bits(data, 1, 4, self.vchp_uvfl.to_u16());
        data = put_bits(data, 1, 3, self.temp_flag1.to_u16());
        data = put_bits(data, 1, 2, self.temp_flag2.to_u16());
        data = put_bits(data, 1, 1, self.temp_flag3.to_u16());
        data = put_bits(data, 1, 0, self.otw.to_u16());
        data
    }

    proof fn lemma_round_trip(raw: u16) {
    }
}

/// The OV/VDS fault register, address `0x2`.
///
/// `bits` is the snapshot the value was decoded from; bits outside the
/// fields keep their value through an encode.
#[derive(Clone, Copy, Debug, PartialEq, Eq, Structural)]
pub struct OvVdsFaults {
    pub bits: u16,
    /// Bit 10.
    pub vds_ha: Flag,
    /// Bit 9.
    pub vds_la: Flag,
    /// Bit 8.
    pub vds_hb: Flag,
    /// Bit 7.
    pub vds_lb: Flag,
    /// Bit 6.
    pub vds_hc: Flag,
    /// Bit 5.
    pub vds_lc: Flag,
    /// Bit 2.
    pub sns_c_ocp: Flag,
    /// Bit 1.
    pub sns_b_ocp: Flag,
    /// Bit 0.
    pub sns_a_ocp: Flag,
}

impl OvVdsFaults {
    /// Sets `vds_ha`; the other fields and the snapshot stay.
    pub fn with_vds_ha(self, v: Flag) -> (r: Self)
        ensures
            r == (OvVdsFaults { vds_ha: v, ..self }),
    {
        OvVdsFaults { vds_ha: v, ..self }
    }

    /// Sets `vds_la`; the other fields and the snapshot stay.
    pub fn with_vds_la(self, v: Flag) -> (r: Self)
        ensures
            r == (OvVdsFaults { vds_la: v, ..self }),
    {
        OvVdsFaults { vds_la: v, ..self }
    }

    /// Sets `vds_hb`; the other fields and the snapshot stay.
    pub fn with_vds_hb(self, v: Flag) -> (r: Self)
        ensures
            r == (OvVdsFaults { vds_hb: v, ..self }),
    {
        OvVdsFaults { vds_hb: v, ..self }
    }

    /// Sets `vds_lb`; the other fields and the snapshot stay.
    pub fn with_vds_lb(self, v: Flag) -> (r: Self)
        ensures
            r == (OvVdsFaults { vds_lb: v, ..self }),
    {
        OvVdsFaults { vds_lb: v, ..self }
    }

    /// Sets `vds_hc`; the other fields and the snapshot stay.
    pub fn with_vds_hc(self, v: Flag) -> (r: Self)
        ensures
            r == (OvVdsFaults { vds_hc: v, ..self }),
    {
        OvVdsFaults { vds_hc: v, ..self }
    }

    /// Sets `vds_lc`; the other fields and the snapshot stay.
    pub fn with_vds_lc(self, v: Flag) -> (r: Self)
        ensures
            r == (OvVdsFaults { vds_lc: v, ..self }),
    {
        OvVdsFaults { vds_lc: v, ..self }
    }

    /// Sets `sns_c_ocp`; the other fields and the snapshot stay.
    pub fn with_sns_c_ocp(self, v: Flag) -> (r: Self)
        ensures
            r == (OvVdsFaults { sns_c_ocp: v, ..self }),
    {
        OvVdsFaults { sns_c_ocp: v, ..self }
    }

    /// Sets `sns_b_ocp`; the other fields and the snapshot stay.
    pub fn with_sns_b_ocp(self, v: Flag) -> (r: Self)
        ensures
            r == (OvVdsFaults { sns_b_ocp: v, ..self }),
    {
        OvVdsFaults { sns_b_ocp: v, ..self }
    }

    /// Sets `sns_a_ocp`; the other fields and the snapshot stay.
    pub fn with_sns_a_ocp(self, v: Flag) -> (r: Self)
        ensures
            r == (OvVdsFaults { sns_a_ocp: v, ..self }),
    {
        OvVdsFaults { sns_a_ocp: v, ..self }
    }

}

impl Register for OvVdsFaults {
    open spec fn addr_spec() -> u8 {
        0x2
    }

    open spec fn decode_spec(raw: u16) -> Result<Self, DecodeError> {
        Ok(OvVdsFaults {
            bits: raw,
            vds_ha: Flag::from_code(get_field(raw, 1, 10)),
            vds_la: Flag::from_code(get_field(raw, 1, 9)),
            vds_hb: Flag::from_code(get_field(raw, 1, 8)),
            vds_lb: Flag::from_code(get_field(raw, 1, 7)),
            vds_hc: Flag::from_code(get_field(raw, 1, 6)),
            vds_lc: Flag::from_code(get_field(raw, 1, 5)),
            sns_c_ocp: Flag::from_code(get_field(raw, 1, 2)),
            sns_b_ocp: Flag::from_code(get_field(raw, 1, 1)),
            sns_a_ocp: Flag::from_code(get_field(raw, 1, 0)),
        })
    }

    open spec fn encode_spec(&self) -> u16 {
        put_field(put_field(put_field(put_field(put_field(put_field(put_field(put_field(put_field(self.bits, 1, 10, self.vds_ha.code()), 1, 9, self.vds_la.code()), 1, 8, self.vds_hb.code()), 1, 7, self.vds_lb.code()), 1, 6, self.vds_hc.code()), 1, 5, self.vds_lc.code()), 1, 2, self.sns_c_ocp.code()), 1, 1, self.sns_b_ocp.code()), 1, 0, self.sns_a_ocp.code())
    }

    fn addr() -> (r: u8) {
        0x2
    }

    fn parse(reg: u16) -> (r: Result<Self, DecodeError>) {
        let vds_ha = Flag::from_bit(get_bits(reg, 1, 10));
        let vds_la = Flag::from_bit(get_bits(reg, 1, 9));
        let vds_hb = Flag::from_bit(get_bits(reg, 1, 8));
        let vds_lb = Flag::from_bit(get_bits(reg, 1, 7));
        let vds_hc = Flag::from_bit(get_bits(reg, 1, 6));
        let vds_lc = Flag::from_bit(get_bits(reg, 1, 5));
        let sns_c_ocp = Flag::from_bit(get_bits(reg, 1, 2));
        let sns_b_ocp = Flag::from_bit(get_bits(reg, 1, 1));
        let sns_a_ocp = Flag::from_bit(get_bits(reg, 1, 0));
        Ok(OvVdsFaults { bits: reg, vds_ha, vds_la, vds_hb, vds_lb, vds_hc, vds_lc, sns_c_ocp, sns_b_ocp, sns_a_ocp })
    }

    fn data(&self) -> (r: u16) {
        let mut data = self.bits;
        data = put_bits(data, 1, 10, self.vds_ha.to_u16());
        data = put_bits(data, 1, 9, self.vds_la.to_u16());
        data = put_bits(data, 1, 8, self.vds_hb.to_u16());
        data = put_bits(data, 1, 7, self.vds_lb.to_u16());
        data = put_bits(data, 1, 6, self.vds_hc.to_u16());
        data = put_bits(data, 1, 5, self.vds_lc.to_u16());
        data = put_bits(data, 1, 2, self.sns_c_ocp.to_u16());
        data = put_bits(data, 1, 1, self.sns_b_ocp.to_u16());
        data = put_bits(data, 1, 0, self.sns_a_ocp.to_u16());
        data
    }

    proof fn lemma_round_trip(raw: u16) {
    }
}

/// The IC fault register, address `0x3`.
///
/// `bits` is the snapshot the value was decoded from; bits outside the
/// fields keep their value through an encode.
#[derive(Clone, Copy, Debug, PartialEq, Eq, Structural)]
pub struct IcFaults {
    pub bits: u16,
    /// Bit 10.
    pub pvdd_uvlo2: Flag,
    /// Bit 9.
    pub wd_fault: Flag,
    /// Bit 8.
    pub otsd: Flag,
    /// Bit 6.
    pub vreg_uv: Flag,
    /// Bit 5.
    pub avdd_uvlo: Flag,
    /// Bit 4.
    pub vcp_lsd_uvlo2: Flag,
    /// Bit 2.
    pub vcph_uvlo2: Flag,
    /// Bit 1.
    pub vcph_uvlo: Flag,
    /// Bit 0.
    pub vcph_ovlo_abs: Flag,
}

impl IcFaults {
    /// Sets `pvdd_uvlo2`; the other fields and the snapshot stay.
    pub fn with_pvdd_uvlo2(self, v: Flag) -> (r: Self)
        ensures
            r == (IcFaults { pvdd_uvlo2: v, ..self }),
    {
        IcFaults { pvdd_uvlo2: v, ..self }
    }

    /// Sets `wd_fault`; the other fields and the snapshot stay.
    pub fn with_wd_fault(self, v: Flag) -> (r: Self)
        ensures
            r == (IcFaults { wd_fault: v, ..self }),
    {
        IcFaults { wd_fault: v, ..self }
    }

    /// Sets `otsd`; the other fields and the snapshot stay.
    pub fn with_otsd(self, v: Flag) -> (r: Self)
        ensures
            r == (IcFaults { otsd: v, ..self }),
    {
        IcFaults { otsd: v, ..self }
    }

    /// Sets `vreg_uv`; the other fields and the snapshot stay.
    pub fn with_vreg_uv(self, v: Flag) -> (r: Self)
        ensures
            r == (IcFaults { vreg_uv: v, ..self }),
    {
        IcFaults { vreg_uv: v, ..self }
    }

    /// Sets `avdd_uvlo`; the other fields and the snapshot stay.
    pub fn with_avdd_uvlo(self, v: Flag) -> (r: Self)
        ensures
            r == (IcFaults { avdd_uvlo: v, ..self }),
    {
        IcFaults { avdd_uvlo: v, ..self }
    }

    /// Sets `vcp_lsd_uvlo2`; the other fields and the snapshot stay.
    pub fn with_vcp_lsd_uvlo2(self, v: Flag) -> (r: Self)
        ensures
            r == (IcFaults { vcp_lsd_uvlo2: v, ..self }),
    {
        IcFaults { vcp_lsd_uvlo2: v, ..self }
    }

    /// Sets `vcph_uvlo2`; the other fields and the snapshot stay.
    pub fn with_vcph_uvlo2(self, v: Flag) -> (r: Self)
        ensures
            r == (IcFaults { vcph_uvlo2: v, ..self }),
    {
        IcFaults { vcph_uvlo2: v, ..self }
    }

    /// Sets `vcph_uvlo`; the other fields and the snapshot stay.
    pub fn with_vcph_uvlo(self, v: Flag) -> (r: Self)
        ensures
            r == (IcFaults { vcph_uvlo: v, ..self }),
    {
        IcFaults { vcph_uvlo: v, ..self }
    }

    /// Sets `vcph_ovlo_abs`; the other fields and the snapshot stay.
    pub fn with_vcph_ovlo_abs(self, v: Flag) -> (r: Self)
        ensures
            r == (IcFaults { vcph_ovlo_abs: v, ..self }),
    {
        IcFaults { vcph_ovlo_abs: v, ..self }
    }

}

impl Register for IcFaults {
    open spec fn addr_spec() -> u8 {
        0x3
    }

    open spec fn decode_spec(raw: u16) -> Result<Self, DecodeError> {
        Ok(IcFaults {
            bits: raw,
            pvdd_uvlo2: Flag::from_code(get_field(raw, 1, 10)),
            wd_fault: Flag::from_code(get_field(raw, 1, 9)),
            otsd: Flag::from_code(get_field(raw, 1, 8)),
            vreg_uv: Flag::from_code(get_field(raw, 1, 6)),
            avdd_uvlo: Flag::from_code(get_field(raw, 1, 5)),
            vcp_lsd_uvlo2: Flag::from_code(get_field(raw, 1, 4)),
            vcph_uvlo2: Flag::from_code(get_field(raw, 1, 2)),
            vcph_uvlo: Flag::from_code(get_field(raw, 1, 1)),
            vcph_ovlo_abs: Flag::from_code(get_field(raw, 1, 0)),
        })
    }

    open spec fn encode_spec(&self) -> u16 {
        put_field(put_field(put_field(put_field(put_field(put_field(put_field(put_field(put_field(self.bits, 1, 10, self.pvdd_uvlo2.code()), 1, 9, self.wd_fault.code()), 1, 8, self.otsd.code()), 1, 6, self.vreg_uv.code()), 1, 5, self.avdd_uvlo.code()), 1, 4, self.vcp_lsd_uvlo2.code()), 1, 2, self.vcph_uvlo2.code()), 1, 1, self.vcph_uvlo.code()), 1, 0, self.vcph_ovlo_abs.code())
    }

    fn addr() -> (r: u8) {
        0x3
    }

    fn parse(reg: u16) -> (r: Result<Self, DecodeError>) {
        let pvdd_uvlo2 = Flag::from_bit(get_bits(reg, 1, 10));
        let wd_fault = Flag::from_bit(get_bits(reg, 1, 9));
        let otsd = Flag::from_bit(get_bits(reg, 1, 8));
        let vreg_uv = Flag::from_bit(get_bits(reg, 1, 6));
        let avdd_uvlo = Flag::from_bit(get_bits(reg, 1, 5));
        let vcp_lsd_uvlo2 = Flag::from_bit(get_bits(reg, 1, 4));
        let vcph_uvlo2 = Flag::from_bit(get_bits(reg, 1, 2));
        let vcph_uvlo = Flag::from_bit(get_bits(reg, 1, 1));
        let vcph_ovlo_abs = Flag::from_bit(get_bits(reg, 1, 0));
        Ok(IcFaults { bits: reg, pvdd_uvlo2, wd_fault, otsd, vreg_uv, avdd_uvlo, vcp_lsd_uvlo2, vcph_uvlo2, vcph_uvlo, vcph_ovlo_abs })
    }

    fn data(&self) -> (r: u16) {
        let mut data = self.bits;
        data = put_bits(data, 1, 10, self.pvdd_uvlo2.to_u16());
        data = put_bits(data, 1, 9, self.wd_fault.to_u16());
        data = put_bits(data, 1, 8, self.otsd.to_u16());
        data = put_bits(data, 1, 6, self.vreg_uv.to_u16());
        data = put_bits(data, 1, 5, self.avdd_uvlo.to_u16());
        data = put_bits(data, 1, 4, self.vcp_lsd_uvlo2.to_u16());
        data = put_bits(data, 1, 2, self.vcph_uvlo2.to_u16());
        data = put_bits(data, 1, 1, self.vcph_uvlo.to_u16());
        data = put_bits(data, 1, 0, self.vcph_ovlo_abs.to_u16());
        data
    }

    proof fn lemma_round_trip(raw: u16) {
    }
}

/// The VGS fault register, address `0x4`.
///
/// `bits` is the snapshot the value was decoded from; bits outside the
/// fields keep their value through an encode.
#[derive(Clone, Copy, Debug, PartialEq, Eq, Structural)]
pub struct VgsFaults {
    pub bits: u16,
    /// Bit 10.
    pub vgs_ha: Flag,
    /// Bit 9.
    pub vgs_la: Flag,
    /// Bit 8.
    pub vgs_hb: Flag,
    /// Bit 7.
    pub vgs_lb: Flag,
    /// Bit 6.
    pub vgs_hc: Flag,
    /// Bit 5.
    pub vgs_lc: Flag,
}

impl VgsFaults {
    /// Every field holds what the snapshot's bits say.
    pub open spec fn in_sync(&self) -> bool {
        self.vgs_ha.code() == get_field(self.bits, 1, 10)
            && self.vgs_la.code() == get_field(self.bits, 1, 9)
            && self.vgs_hb.code() == get_field(self.bits, 1, 8)
            && self.vgs_lb.code() == get_field(self.bits, 1, 7)
            && self.vgs_hc.code() == get_field(self.bits, 1, 6)
            && self.vgs_lc.code() == get_field(self.bits, 1, 5)
    }

    /// Sets `vgs_ha`; the other fields and the snapshot stay. On a value
    /// in sync with its snapshot, encoding the result changes
    /// bit 10 of the snapshot only, and those hold the new value.
    pub fn with_vgs_ha(self, v: Flag) -> (r: Self)
        ensures
            r == (VgsFaults { vgs_ha: v, ..self }),
            self.in_sync() ==> r.encode_spec() == put_field(self.bits, 1, 10, v.code()),
            self.in_sync() ==> same_outside(r.encode_spec(), self.bits, 1, 10),
            get_field(r.encode_spec(), 1, 10) == v.code() & field_mask(1),
    {
        VgsFaults { vgs_ha: v, ..self }
    }

    /// Sets `vgs_la`; the other fields and the snapshot stay. On a value
    /// in sync with its snapshot, encoding the result changes
    /// bit 9 of the snapshot only, and those hold the new value.
    pub fn with_vgs_la(self, v: Flag) -> (r: Self)
        ensures
            r == (VgsFaults { vgs_la: v, ..self }),
            self.in_sync() ==> r.encode_spec() == put_field(self.bits, 1, 9, v.code()),
            self.in_sync() ==> same_outside(r.encode_spec(), self.bits, 1, 9),
            get_field(r.encode_spec(), 1, 9) == v.code() & field_mask(1),
    {
        VgsFaults { vgs_la: v, ..self }
    }

    /// Sets `vgs_hb`; the other fields and the snapshot stay. On a value
    /// in sync with its snapshot, encoding the result changes
    /// bit 8 of the snapshot only, and those hold the new value.
    pub fn with_vgs_hb(self, v: Flag) -> (r: Self)
        ensures
            r == (VgsFaults { vgs_hb: v, ..self }),
            self.in_sync() ==> r.encode_spec() == put_field(self.bits, 1, 8, v.code()),
            self.in_sync() ==> same_outside(r.encode_spec(), self.bits, 1, 8),
            get_field(r.encode_spec(), 1, 8) == v.code() & field_mask(1),
    {
        VgsFaults { vgs_hb: v, ..self }
    }

    /// Sets `vgs_lb`; the other fields and the snapshot stay. On a value
    /// in sync with its snapshot, encoding the result changes
    /// bit 7 of the snapshot only, and those hold the new value.
    pub fn with_vgs_lb(self, v: Flag) -> (r: Self)
        ensures
            r == (VgsFaults { vgs_lb: v, ..self }),
            self.in_sync() ==> r.encode_spec() == put_field(self.bits, 1, 7, v.code()),
            self.in_sync() ==> same_outside(r.encode_spec(), self.bits, 1, 7),
            get_field(r.encode_spec(), 1, 7) == v.code() & field_mask(1),
    {
        VgsFaults { vgs_lb: v, ..self }
    }

    /// Sets `vgs_hc`; the other fields and the snapshot stay. On a value
    /// in sync with its snapshot, encoding the result changes
    /// bit 6 of the snapshot only, and those hold the new value.
    pub fn with_vgs_hc(self, v: Flag) -> (r: Self)
        ensures
            r == (VgsFaults { vgs_hc: v, ..self }),
            self.in_sync() ==> r.encode_spec() == put_field(self.bits, 1, 6, v.code()),
            self.in_sync() ==> same_outside(r.encode_spec(), self.bits, 1, 6),
            get_field(r.encode_spec(), 1, 6) == v.code() & field_mask(1),
    {
        VgsFaults { vgs_hc: v, ..self }
    }

    /// Sets `vgs_lc`; the other fields and the snapshot stay. On a value
    /// in sync with its snapshot, encoding the result changes
    /// bit 5 of the snapshot only, and those hold the new value.
    pub fn with_vgs_lc(self, v: Flag) -> (r: Self)
        ensures
            r == (VgsFaults { vgs_lc: v, ..self }),
            self.in_sync() ==> r.encode_spec() == put_field(self.bits, 1, 5, v.code()),
            self.in_sync() ==> same_outside(r.encode_spec(), self.bits, 1, 5),
            get_field(r.encode_spec(), 1, 5) == v.code() & field_mask(1),
    {
        VgsFaults { vgs_lc: v, ..self }
    }

}

impl Register for VgsFaults {
    open spec fn addr_spec() -> u8 {
        0x4
    }

    open spec fn decode_spec(raw: u16) -> Result<Self, DecodeError> {
        Ok(VgsFaults {
            bits: raw,
            vgs_ha: Flag::from_code(get_field(raw, 1, 10)),
            vgs_la: Flag::from_code(get_field(raw, 1, 9)),
            vgs_hb: Flag::from_code(get_field(raw, 1, 8)),
            vgs_lb: Flag::from_code(get_field(raw, 1, 7)),
            vgs_hc: Flag::from_code(get_field(raw, 1, 6)),
            vgs_lc: Flag::from_code(get_field(raw, 1, 5)),
        })
    }

    open spec fn encode_spec(&self) -> u16 {
        put_field(put_field(put_field(put_field(put_field(put_field(self.bits, 1, 10, self.vgs_ha.code()), 1, 9, self.vgs_la.code()), 1, 8, self.vgs_hb.code()), 1, 7, self.vgs_lb.code()), 1, 6, self.vgs_hc.code()), 1, 5, self.vgs_lc.code())
    }

    fn addr() -> (r: u8) {
        0x4
    }

    fn parse(reg: u16) -> (r: Result<Self, DecodeError>) {
        let vgs_ha = Flag::from_bit(get_bits(reg, 1, 10));
        let vgs_la = Flag::from_bit(get_bits(reg, 1, 9));
        let vgs_hb = Flag::from_bit(get_bits(reg, 1, 8));
        let vgs_lb = Flag::from_bit(get_bits(reg, 1, 7));
        let vgs_hc = Flag::from_bit(get_bits(reg, 1, 6));
        let vgs_lc = Flag::from_bit(get_bits(reg, 1, 5));
        Ok(VgsFaults { bits: reg, vgs_ha, vgs_la, vgs_hb, vgs_lb, vgs_hc, vgs_lc })
    }

    fn data(&self) -> (r: u16) {
        let mut data = self.bits;
        data = put_bits(data, 1, 10, self.vgs_ha.to_u16());
        data = put_bits(data, 1, 9, self.vgs_la.to_u16());
        data = put_bits(data, 1, 8, self.vgs_hb.to_u16());
        data = put_bits(data, 1, 7, self.vgs_lb.to_u16());
        data = put_bits(data, 1, 6, self.vgs_hc.to_u16());
        data = put_bits(data, 1, 5, self.vgs_lc.to_u16());
        data
    }

    proof fn lemma_round_trip(raw: u16) {
    }
}

} // verus!
