//! The C `enum iio_chan_type`: what a channel measures, with the numbers C uses for it.
use vstd::prelude::*;

verus! {

/// Number of channel types the IIO core defines (`IIO_VOLTAGE` up to `IIO_ATTENTION`).
pub const NUM_CHANNEL_TYPES: u32 = 40;

/// What a channel measures; each variant stands for one value of C's `enum iio_chan_type`.
#[derive(Clone, Copy, Debug, PartialEq, Eq, Structural)]
pub enum ChannelType {
    /// `IIO_VOLTAGE`
    Voltage,
    /// `IIO_CURRENT`
    Current,
    /// `IIO_POWER`
    Power,
    /// `IIO_ACCEL`
    Accel,
    /// `IIO_ANGL_VEL`
    AnglVel,
    /// `IIO_MAGN`
    Magn,
    /// `IIO_LIGHT`
    Light,
    /// `IIO_INTENSITY`
    Intensity,
    /// `IIO_PROXIMITY`
    Proximity,
    /// `IIO_TEMP`
    Temp,
    /// `IIO_INCLI`
    Incli,
    /// `IIO_ROT`
    Rot,
    /// `IIO_ANGL`
    Angl,
    /// `IIO_TIMESTAMP`
    Timestamp,
    /// `IIO_CAPACITANCE`
    Capacitance,
    /// `IIO_ALTVOLTAGE`
    AltVoltage,
    /// `IIO_CCT`
    Cct,
    /// `IIO_PRESSURE`
    Pressure,
    /// `IIO_HUMIDITYRELATIVE`
    HumidityRelative,
    /// `IIO_ACTIVITY`
    Activity,
    /// `IIO_STEPS`
    Steps,
    /// `IIO_ENERGY`
    Energy,
    /// `IIO_DISTANCE`
    Distance,
    /// `IIO_VELOCITY`
    Velocity,
    /// `IIO_CONCENTRATION`
    Concentration,
    /// `IIO_RESISTANCE`
    Resistance,
    /// `IIO_PH`
    Ph,
    /// `IIO_UVINDEX`
    UvIndex,
    /// `IIO_ELECTRICALCONDUCTIVITY`
    ElectricalConductivity,
    /// `IIO_COUNT`. Counter channels are being moved out of IIO; new drivers should not use it.
    Count,
    /// `IIO_INDEX`
    Index,
    /// `IIO_GRAVITY`
    Gravity,
    /// `IIO_POSITIONRELATIVE`
    PositionRelative,
    /// `IIO_PHASE`
    Phase,
    /// `IIO_MASSCONCENTRATION`
    MassConcentration,
    /// `IIO_DELTA_ANGL`
    DeltaAngl,
    /// `IIO_DELTA_VELOCITY`
    DeltaVelocit,
    /// `IIO_COLORTEMP`
    ColorTemp,
    /// `IIO_CHROMATICITY`
    Chromaticity,
    /// `IIO_ATTENTION`
    Attention,
}

impl ChannelType {
    /// The value of C's `enum iio_chan_type` for this channel type.
    pub open spec fn spec_code(self) -> u32 {
        match self {
            ChannelType::Voltage => 0,
            ChannelType::Current => 1,
            ChannelType::Power => 2,
            ChannelType::Accel => 3,
            ChannelType::AnglVel => 4,
            ChannelType::Magn => 5,
            ChannelType::Light => 6,
            ChannelType::Intensity => 7,
            ChannelType::Proximity => 8,
            ChannelType::Temp => 9,
            ChannelType::Incli => 10,
            ChannelType::Rot => 11,
            ChannelType::Angl => 12,
            ChannelType::Timestamp => 13,
            ChannelType::Capacitance => 14,
            ChannelType::AltVoltage => 15,
            ChannelType::Cct => 16,
            ChannelType::Pressure => 17,
            ChannelType::HumidityRelative => 18,
            ChannelType::Activity => 19,
            ChannelType::Steps => 20,
            ChannelType::Energy => 21,
            ChannelType::Distance => 22,
            ChannelType::Velocity => 23,
            ChannelType::Concentration => 24,
            ChannelType::Resistance => 25,
            ChannelType::Ph => 26,
            ChannelType::UvIndex => 27,
            ChannelType::ElectricalConductivity => 28,
            ChannelType::Count => 29,
            ChannelType::Index => 30,
            ChannelType::Gravity => 31,
            ChannelType::PositionRelative => 32,
            ChannelType::Phase => 33,
            ChannelType::MassConcentration => 34,
            ChannelType::DeltaAngl => 35,
            ChannelType::DeltaVelocit => 36,
            ChannelType::ColorTemp => 37,
            ChannelType::Chromaticity => 38,
            ChannelType::Attention => 39,
        }
    }

    /// The channel type whose C value is `code`, if there is one.
    pub open spec fn spec_from_code(code: u32) -> Option<ChannelType> {
        if code == 0 {
            Some(ChannelType::Voltage)
        } else if code == 1 {
            Some(ChannelType::Current)
        } else if code == 2 {
            Some(ChannelType::Power)
        } else if code == 3 {
            Some(ChannelType::Accel)
        } else if code == 4 {
            Some(ChannelType::AnglVel)
        } else if code == 5 {
            Some(ChannelType::Magn)
        } else if code == 6 {
            Some(ChannelType::Light)
        } else if code == 7 {
            Some(ChannelType::Intensity)
        } else if code == 8 {
            Some(ChannelType::Proximity)
        } else if code == 9 {
            Some(ChannelType::Temp)
        } else if code == 10 {
            Some(ChannelType::Incli)
        } else if code == 11 {
            Some(ChannelType::Rot)
        } else if code == 12 {
            Some(ChannelType::Angl)
        } else if code == 13 {
            Some(ChannelType::Timestamp)
        } else if code == 14 {
            Some(ChannelType::Capacitance)
        } else if code == 15 {
            Some(ChannelType::AltVoltage)
        } else if code == 16 {
            Some(ChannelType::Cct)
        } else if code == 17 {
            Some(ChannelType::Pressure)
        } else if code == 18 {
            Some(ChannelType::HumidityRelative)
        } else if code == 19 {
            Some(ChannelType::Activity)
        } else if code == 20 {
            Some(ChannelType::Steps)
        } else if code == 21 {
            Some(ChannelType::Energy)
        } else if code == 22 {
            Some(ChannelType::Distance)
        } else if code == 23 {
            Some(ChannelType::Velocity)
        } else if code == 24 {
            Some(ChannelType::Concentration)
        } else if code == 25 {
            Some(ChannelType::Resistance)
        } else if code == 26 {
            Some(ChannelType::Ph)
        } else if code == 27 {
            Some(ChannelType::UvIndex)
        } else if code == 28 {
            Some(ChannelType::ElectricalConductivity)
        } else if code == 29 {
            Some(ChannelType::Count)
        } else if code == 30 {
            Some(ChannelType::Index)
        } else if code == 31 {
            Some(ChannelType::Gravity)
        } else if code == 32 {
            Some(ChannelType::PositionRelative)
        } else if code == 33 {
            Some(ChannelType::Phase)
        } else if code == 34 {
            Some(ChannelType::MassConcentration)
        } else if code == 35 {
            Some(ChannelType::DeltaAngl)
        } else if code == 36 {
            Some(ChannelType::DeltaVelocit)
        } else if code == 37 {
            Some(ChannelType::ColorTemp)
        } else if code == 38 {
            Some(ChannelType::Chromaticity)
        } else if code == 39 {
            Some(ChannelType::Attention)
        } else {
            None
        }
    }

    /// The value of C's `enum iio_chan_type` for this channel type.
    pub fn code(&self) -> (r: u32)
        ensures
            r == self.spec_code(),
            r < NUM_CHANNEL_TYPES,
    {
        match self {
            ChannelType::Voltage => 0,
            ChannelType::Current => 1,
            ChannelType::Power => 2,
            ChannelType::Accel => 3,
            ChannelType::AnglVel => 4,
            ChannelType::Magn => 5,
            ChannelType::Light => 6,
            ChannelType::Intensity => 7,
            ChannelType::Proximity => 8,
            ChannelType::Temp => 9,
            ChannelType::Incli => 10,
            ChannelType::Rot => 11,
            ChannelType::Angl => 12,
            ChannelType::Timestamp => 13,
            ChannelType::Capacitance => 14,
            ChannelType::AltVoltage => 15,
            ChannelType::Cct => 16,
            ChannelType::Pressure => 17,
            ChannelType::HumidityRelative => 18,
            ChannelType::Activity => 19,
            ChannelType::Steps => 20,
            ChannelType::Energy => 21,
            ChannelType::Distance => 22,
            ChannelType::Velocity => 23,
            ChannelType::Concentration => 24,
            ChannelType::Resistance => 25,
            ChannelType::Ph => 26,
            ChannelType::UvIndex => 27,
            ChannelType::ElectricalConductivity => 28,
            ChannelType::Count => 29,
            ChannelType::Index => 30,
            ChannelType::Gravity => 31,
            ChannelType::PositionRelative => 32,
            ChannelType::Phase => 33,
            ChannelType::MassConcentration => 34,
            ChannelType::DeltaAngl => 35,
            ChannelType::DeltaVelocit => 36,
            ChannelType::ColorTemp => 37,
            ChannelType::Chromaticity => 38,
            ChannelType::Attention => 39,
        }
    }

    /// The channel type whose C value is `code`; `None` when C defines no such type.
    pub fn from_code(code: u32) -> (r: Option<ChannelType>)
        ensures
            r == Self::spec_from_code(code),
            r is Some <==> code < NUM_CHANNEL_TYPES,
            r matches Some(t) ==> t.spec_code() == code,
    {
        match code {
            0 => Some(ChannelType::Voltage),
            1 => Some(ChannelType::Current),
            2 => Some(ChannelType::Power),
            3 => Some(ChannelType::Accel),
            4 => Some(ChannelType::AnglVel),
            5 => Some(ChannelType::Magn),
            6 => Some(ChannelType::Light),
            7 => Some(ChannelType::Intensity),
            8 => Some(ChannelType::Proximity),
            9 => Some(ChannelType::Temp),
            10 => Some(ChannelType::Incli),
            11 => Some(ChannelType::Rot),
            12 => Some(ChannelType::Angl),
            13 => Some(ChannelType::Timestamp),
            14 => Some(ChannelType::Capacitance),
            15 => Some(ChannelType::AltVoltage),
            16 => Some(ChannelType::Cct),
            17 => Some(ChannelType::Pressure),
            18 => Some(ChannelType::HumidityRelative),
            19 => Some(ChannelType::Activity),
            20 => Some(ChannelType::Steps),
            21 => Some(ChannelType::Energy),
            22 => Some(ChannelType::Distance),
            23 => Some(ChannelType::Velocity),
            24 => Some(ChannelType::Concentration),
            25 => Some(ChannelType::Resistance),
            26 => Some(ChannelType::Ph),
            27 => Some(ChannelType::UvIndex),
            28 => Some(ChannelType::ElectricalConductivity),
            29 => Some(ChannelType::Count),
            30 => Some(ChannelType::Index),
            31 => Some(ChannelType::Gravity),
            32 => Some(ChannelType::PositionRelative),
            33 => Some(ChannelType::Phase),
            34 => Some(ChannelType::MassConcentration),
            35 => Some(ChannelType::DeltaAngl),
            36 => Some(ChannelType::DeltaVelocit),
            37 => Some(ChannelType::ColorTemp),
            38 => Some(ChannelType::Chromaticity),
            39 => Some(ChannelType::Attention),
            _ => None,
        }
    }
}

/// C's `enum iio_chan_type`, value by value: `IIO_VOLTAGE` is 0, `IIO_CURRENT` 1, and so on in
/// declaration order up to `IIO_ATTENTION` 39; and each value reads back as its type.
pub proof fn lemma_channel_type_table()
    ensures
        ChannelType::Voltage.spec_code() == 0,
        ChannelType::Current.spec_code() == 1,
        ChannelType::Power.spec_code() == 2,
        ChannelType::Accel.spec_code() == 3,
        ChannelType::AnglVel.spec_code() == 4,
        ChannelType::Magn.spec_code() == 5,
        ChannelType::Light.spec_code() == 6,
        ChannelType::Intensity.spec_code() == 7,
        ChannelType::Proximity.spec_code() == 8,
        ChannelType::Temp.spec_code() == 9,
        ChannelType::Incli.spec_code() == 10,
        ChannelType::Rot.spec_code() == 11,
        ChannelType::Angl.spec_code() == 12,
        ChannelType::Timestamp.spec_code() == 13,
        ChannelType::Capacitance.spec_code() == 14,
        ChannelType::AltVoltage.spec_code() == 15,
        ChannelType::Cct.spec_code() == 16,
        ChannelType::Pressure.spec_code() == 17,
        ChannelType::HumidityRelative.spec_code() == 18,
        ChannelType::Activity.spec_code() == 19,
        ChannelType::Steps.spec_code() == 20,
        ChannelType::Energy.spec_code() == 21,
        ChannelType::Distance.spec_code() == 22,
        ChannelType::Velocity.spec_code() == 23,
        ChannelType::Concentration.spec_code() == 24,
        ChannelType::Resistance.spec_code() == 25,
        ChannelType::Ph.spec_code() == 26,
        ChannelType::UvIndex.spec_code() == 27,
        ChannelType::ElectricalConductivity.spec_code() == 28,
        ChannelType::Count.spec_code() == 29,
        ChannelType::Index.spec_code() == 30,
        ChannelType::Gravity.spec_code() == 31,
        ChannelType::PositionRelative.spec_code() == 32,
        ChannelType::Phase.spec_code() == 33,
        ChannelType::MassConcentration.spec_code() == 34,
        ChannelType::DeltaAngl.spec_code() == 35,
        ChannelType::DeltaVelocit.spec_code() == 36,
        ChannelType::ColorTemp.spec_code() == 37,
        ChannelType::Chromaticity.spec_code() == 38,
        ChannelType::Attention.spec_code() == 39,
        ChannelType::spec_from_code(0) == Some(ChannelType::Voltage),
        ChannelType::spec_from_code(1) == Some(ChannelType::Current),
        ChannelType::spec_from_code(2) == Some(ChannelType::Power),
        ChannelType::spec_from_code(3) == Some(ChannelType::Accel),
        ChannelType::spec_from_code(4) == Some(ChannelType::AnglVel),
        ChannelType::spec_from_code(5) == Some(ChannelType::Magn),
        ChannelType::spec_from_code(6) == Some(ChannelType::Light),
        ChannelType::spec_from_code(7) == Some(ChannelType::Intensity),
        ChannelType::spec_from_code(8) == Some(ChannelType::Proximity),
        ChannelType::spec_from_code(9) == Some(ChannelType::Temp),
        ChannelType::spec_from_code(10) == Some(ChannelType::Incli),
        ChannelType::spec_from_code(11) == Some(ChannelType::Rot),
        ChannelType::spec_from_code(12) == Some(ChannelType::Angl),
        ChannelType::spec_from_code(13) == Some(ChannelType::Timestamp),
        ChannelType::spec_from_code(14) == Some(ChannelType::Capacitance),
        ChannelType::spec_from_code(15) == Some(ChannelType::AltVoltage),
        ChannelType::spec_from_code(16) == Some(ChannelType::Cct),
        ChannelType::spec_from_code(17) == Some(ChannelType::Pressure),
        ChannelType::spec_from_code(18) == Some(ChannelType::HumidityRelative),
        ChannelType::spec_from_code(19) == Some(ChannelType::Activity),
        ChannelType::spec_from_code(20) == Some(ChannelType::Steps),
        ChannelType::spec_from_code(21) == Some(ChannelType::Energy),
        ChannelType::spec_from_code(22) == Some(ChannelType::Distance),
        ChannelType::spec_from_code(23) == Some(ChannelType::Velocity),
        ChannelType::spec_from_code(24) == Some(ChannelType::Concentration),
        ChannelType::spec_from_code(25) == Some(ChannelType::Resistance),
        ChannelType::spec_from_code(26) == Some(ChannelType::Ph),
        ChannelType::spec_from_code(27) == Some(ChannelType::UvIndex),
        ChannelType::spec_from_code(28) == Some(ChannelType::ElectricalConductivity),
        ChannelType::spec_from_code(29) == Some(ChannelType::Count),
        ChannelType::spec_from_code(30) == Some(ChannelType::Index),
        ChannelType::spec_from_code(31) == Some(ChannelType::Gravity),
        ChannelType::spec_from_code(32) == Some(ChannelType::PositionRelative),
        ChannelType::spec_from_code(33) == Some(ChannelType::Phase),
        ChannelType::spec_from_code(34) == Some(ChannelType::MassConcentration),
        ChannelType::spec_from_code(35) == Some(ChannelType::DeltaAngl),
        ChannelType::spec_from_code(36) == Some(ChannelType::DeltaVelocit),
        ChannelType::spec_from_code(37) == Some(ChannelType::ColorTemp),
        ChannelType::spec_from_code(38) == Some(ChannelType::Chromaticity),
        ChannelType::spec_from_code(39) == Some(ChannelType::Attention),
{
}

/// Reading a channel type back from its C value gives the same type.
pub proof fn lemma_from_code_of_code(t: ChannelType)
    ensures
        ChannelType::spec_from_code(t.spec_code()) == Some(t),
{
}

/// Distinct channel types have distinct C values.
pub proof fn lemma_code_injective(a: ChannelType, b: ChannelType)
    ensures
        a.spec_code() == b.spec_code() <==> a == b,
{
}

} // verus!
