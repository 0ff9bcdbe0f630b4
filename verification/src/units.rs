//! The closed unit-code tables for the X axis and for the Y and Z axes.

use vstd::prelude::*;

use crate::error::DecodeError;

verus! {

/// The unit of the X axis, one tag per defined code.
///
/// The table is closed: codes 0 through 30 and 255 are defined, every other
/// byte is a decode failure rather than a silent default.
#[derive(Debug, PartialEq, Eq, Structural, Clone, Copy)]
pub enum XUnit {
    Arbitrary,
    WaveNumber,
    MicroMeters,
    NanoMeters,
    Seconds,
    Minutes,
    Hertz,
    KHertz,
    MHertz,
    Mass,
    PartsPerMillion,
    Days,
    Years,
    RamanShift,
    ElectronVolt,
    Custom,
    DiodeNumber,
    Channel,
    Degrees,
    TemperatureF,
    TemperatureC,
    TemperatureK,
    DataPoints,
    MilliSeconds,
    MicroSeconds,
    NanoSeconds,
    GigaHertz,
    Centimeters,
    Meters,
    MilliMeters,
    Hours,
    NoLabels,
}

/// The unit of the Y axis, reused for the Z axis.
///
/// Its code space is sparser than the X table's and the two must not be
/// merged: code 16, for one, is `DiodeNumber` on the X side but `Decibel`
/// here.  Codes 0 through 14, 16, 19 through 26 and 128 through 131 are
/// defined; the gaps are decode failures.
#[derive(Debug, PartialEq, Eq, Structural, Clone, Copy)]
pub enum YUnit {
    Arbitrary,
    Interferogram,
    Absorbance,
    KubelkaMonk,
    Counts,
    Volts,
    Degrees,
    MilliAmpere,
    MilliMeters,
    MilliVolts,
    LogOneOverR,
    Percent,
    Intensity,
    RelativeIntensity,
    Energy,
    Decibel,
    TemperatureF,
    TemperatureC,
    TemperatureK,
    IndexOfRefraction,
    ExtinctionCoefficient,
    Real,
    Imaginary,
    Complex,
    Transmission,
    Reflectance,
    Valley,
    Emission,
}

/// The X-axis unit table: which tag each code byte stands for.
pub open spec fn spec_x_unit(b: u8) -> Result<XUnit, DecodeError> {
    match b {
        0u8 => Ok(XUnit::Arbitrary),
        1u8 => Ok(XUnit::WaveNumber),
        2u8 => Ok(XUnit::MicroMeters),
        3u8 => Ok(XUnit::NanoMeters),
        4u8 => Ok(XUnit::Seconds),
        5u8 => Ok(XUnit::Minutes),
        6u8 => Ok(XUnit::Hertz),
        7u8 => Ok(XUnit::KHertz),
        8u8 => Ok(XUnit::MHertz),
        9u8 => Ok(XUnit::Mass),
        10u8 => Ok(XUnit::PartsPerMillion),
        11u8 => Ok(XUnit::Days),
        12u8 => Ok(XUnit::Years),
        13u8 => Ok(XUnit::RamanShift),
        14u8 => Ok(XUnit::ElectronVolt),
        15u8 => Ok(XUnit::Custom),
        16u8 => Ok(XUnit::DiodeNumber),
        17u8 => Ok(XUnit::Channel),
        18u8 => Ok(XUnit::Degrees),
        19u8 => Ok(XUnit::TemperatureF),
        20u8 => Ok(XUnit::TemperatureC),
        21u8 => Ok(XUnit::TemperatureK),
        22u8 => Ok(XUnit::DataPoints),
        23u8 => Ok(XUnit::MilliSeconds),
        24u8 => Ok(XUnit::MicroSeconds),
        25u8 => Ok(XUnit::NanoSeconds),
        26u8 => Ok(XUnit::GigaHertz),
        27u8 => Ok(XUnit::Centimeters),
        28u8 => Ok(XUnit::Meters),
        29u8 => Ok(XUnit::MilliMeters),
        30u8 => Ok(XUnit::Hours),
        255u8 => Ok(XUnit::NoLabels),
        _ => Err(DecodeError::UnknownUnitCode),
    }
}

/// The Y/Z-axis unit table: which tag each code byte stands for.
pub open spec fn spec_y_unit(b: u8) -> Result<YUnit, DecodeError> {
    match b {
        0u8 => Ok(YUnit::Arbitrary),
        1u8 => Ok(YUnit::Interferogram),
        2u8 => Ok(YUnit::Absorbance),
        3u8 => Ok(YUnit::KubelkaMonk),
        4u8 => Ok(YUnit::Counts),
        5u8 => Ok(YUnit::Volts),
        6u8 => Ok(YUnit::Degrees),
        7u8 => Ok(YUnit::MilliAmpere),
        8u8 => Ok(YUnit::MilliMeters),
        9u8 => Ok(YUnit::MilliVolts),
        10u8 => Ok(YUnit::LogOneOverR),
        11u8 => Ok(YUnit::Percent),
        12u8 => Ok(YUnit::Intensity),
        13u8 => Ok(YUnit::RelativeIntensity),
        14u8 => Ok(YUnit::Energy),
        16u8 => Ok(YUnit::Decibel),
        19u8 => Ok(YUnit::TemperatureF),
        20u8 => Ok(YUnit::TemperatureC),
        21u8 => Ok(YUnit::TemperatureK),
        22u8 => Ok(YUnit::IndexOfRefraction),
        23u8 => Ok(YUnit::ExtinctionCoefficient),
        24u8 => Ok(YUnit::Real),
        25u8 => Ok(YUnit::Imaginary),
        26u8 => Ok(YUnit::Complex),
        128u8 => Ok(YUnit::Transmission),
        129u8 => Ok(YUnit::Reflectance),
        130u8 => Ok(YUnit::Valley),
        131u8 => Ok(YUnit::Emission),
        _ => Err(DecodeError::UnknownUnitCode),
    }
}

/// Decode an X-axis unit byte against the closed X table.
pub fn x_unit(b: u8) -> (r: Result<XUnit, DecodeError>)
    ensures
        r == spec_x_unit(b),
{
    match b {
        0u8 => Ok(XUnit::Arbitrary),
        1u8 => Ok(XUnit::WaveNumber),
        2u8 => Ok(XUnit::MicroMeters),
        3u8 => Ok(XUnit::NanoMeters),
        4u8 => Ok(XUnit::Seconds),
        5u8 => Ok(XUnit::Minutes),
        6u8 => Ok(XUnit::Hertz),
        7u8 => Ok(XUnit::KHertz),
        8u8 => Ok(XUnit::MHertz),
        9u8 => Ok(XUnit::Mass),
        10u8 => Ok(XUnit::PartsPerMillion),
        11u8 => Ok(XUnit::Days),
        12u8 => Ok(XUnit::Years),
        13u8 => Ok(XUnit::RamanShift),
        14u8 => Ok(XUnit::ElectronVolt),
        15u8 => Ok(XUnit::Custom),
        16u8 => Ok(XUnit::DiodeNumber),
        17u8 => Ok(XUnit::Channel),
        18u8 => Ok(XUnit::Degrees),
        19u8 => Ok(XUnit::TemperatureF),
        20u8 => Ok(XUnit::TemperatureC),
        21u8 => Ok(XUnit::TemperatureK),
        22u8 => Ok(XUnit::DataPoints),
        23u8 => Ok(XUnit::MilliSeconds),
        24u8 => Ok(XUnit::MicroSeconds),
        25u8 => Ok(XUnit::NanoSeconds),
        26u8 => Ok(XUnit::GigaHertz),
        27u8 => Ok(XUnit::Centimeters),
        28u8 => Ok(XUnit::Meters),
        29u8 => Ok(XUnit::MilliMeters),
        30u8 => Ok(XUnit::Hours),
        255u8 => Ok(XUnit::NoLabels),
        _ => Err(DecodeError::UnknownUnitCode),
    }
}

/// Decode a Y- or Z-axis unit byte against the closed Y/Z table.
pub fn y_unit(b: u8) -> (r: Result<YUnit, DecodeError>)
    ensures
        r == spec_y_unit(b),
{
    match b {
        0u8 => Ok(YUnit::Arbitrary),
        1u8 => Ok(YUnit::Interferogram),
        2u8 => Ok(YUnit::Absorbance),
        3u8 => Ok(YUnit::KubelkaMonk),
        4u8 => Ok(YUnit::Counts),
        5u8 => Ok(YUnit::Volts),
        6u8 => Ok(YUnit::Degrees),
        7u8 => Ok(YUnit::MilliAmpere),
        8u8 => Ok(YUnit::MilliMeters),
        9u8 => Ok(YUnit::MilliVolts),
        10u8 => Ok(YUnit::LogOneOverR),
        11u8 => Ok(YUnit::Percent),
        12u8 => Ok(YUnit::Intensity),
        13u8 => Ok(YUnit::RelativeIntensity),
        14u8 => Ok(YUnit::Energy),
        16u8 => Ok(YUnit::Decibel),
        19u8 => Ok(YUnit::TemperatureF),
        20u8 => Ok(YUnit::TemperatureC),
        21u8 => Ok(YUnit::TemperatureK),
        22u8 => Ok(YUnit::IndexOfRefraction),
        23u8 => Ok(YUnit::ExtinctionCoefficient),
        24u8 => Ok(YUnit::Real),
        25u8 => Ok(YUnit::Imaginary),
        26u8 => Ok(YUnit::Complex),
        128u8 => Ok(YUnit::Transmission),
        129u8 => Ok(YUnit::Reflectance),
        130u8 => Ok(YUnit::Valley),
        131u8 => Ok(YUnit::Emission),
        _ => Err(DecodeError::UnknownUnitCode),
    }
}

} // verus!
