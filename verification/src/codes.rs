//! The closed sets of device settings.
//!
//! A capture stores each setting as a small code: the position of the
//! variant in declaration order, counted from zero. A code outside the set
//! fails the decode; there is no default variant.

use vstd::prelude::*;
use crate::error::{DecodeError, EnumField};

verus! {

/// Number of variants that `field` declares.
pub open spec fn spec_variant_count(field: EnumField) -> nat {
    match field {
        EnumField::Coupling => 2,
        EnumField::Attenuation => 3,
        EnumField::ScrollSpeed => 2,
        EnumField::TriggerType => 3,
        EnumField::TriggerEdge => 2,
        EnumField::TriggerChannel => 2,
        EnumField::Trigger50 => 2,
    }
}

/// Number of variants that `field` declares.
pub fn variant_count(field: EnumField) -> (count: u16)
    ensures
        count == spec_variant_count(field),
{
    match field {
        EnumField::Coupling => 2,
        EnumField::Attenuation => 3,
        EnumField::ScrollSpeed => 2,
        EnumField::TriggerType => 3,
        EnumField::TriggerEdge => 2,
        EnumField::TriggerChannel => 2,
        EnumField::Trigger50 => 2,
    }
}

/// A closed set of settings that a capture stores by code.
pub trait Setting: Sized {
    /// The set this type holds the variants of.
    spec fn field() -> EnumField;

    /// Position of the variant in declaration order, counted from zero.
    spec fn ordinal(self) -> int;

    /// The variant at position `code`; the last one for any larger code.
    spec fn variant(code: int) -> Self;

    /// The variant that `number` stands for. Every code below the variant
    /// count gives the variant at that position; every other code fails.
    fn try_from_primitive(number: u16) -> (outcome: Result<Self, DecodeError>)
        ensures
            number < spec_variant_count(Self::field()) ==> outcome == Ok::<Self, DecodeError>(
                Self::variant(number as int),
            ) && Self::variant(number as int).ordinal() == number,
            number >= spec_variant_count(Self::field()) ==> outcome == Err::<Self, DecodeError>(
                DecodeError::UnknownEnumCode { field_name: Self::field(), raw_code: number },
            ),
    ;
}

/// How a channel's input is coupled.
#[derive(Clone, Copy, Debug, PartialEq, Eq, Structural)]
pub enum Coupling {
    DC,
    AC,
}

impl Setting for Coupling {
    open spec fn field() -> EnumField {
        EnumField::Coupling
    }

    open spec fn ordinal(self) -> int {
        match self {
            Coupling::DC => 0,
            Coupling::AC => 1,
        }
    }

    open spec fn variant(code: int) -> Self {
        if code <= 0 {
            Coupling::DC
        } else {
            Coupling::AC
        }
    }

    fn try_from_primitive(number: u16) -> (outcome: Result<Coupling, DecodeError>) {
        match number {
            0 => Ok(Coupling::DC),
            1 => Ok(Coupling::AC),
            _ => Err(DecodeError::UnknownEnumCode { field_name: EnumField::Coupling, raw_code: number }),
        }
    }
}

/// Attenuation of the probe on a channel.
#[derive(Clone, Copy, Debug, PartialEq, Eq, Structural)]
pub enum Attenuation {
    OneX,
    TenX,
    OneHundredX,
}

impl Setting for Attenuation {
    open spec fn field() -> EnumField {
        EnumField::Attenuation
    }

    open spec fn ordinal(self) -> int {
        match self {
            Attenuation::OneX => 0,
            Attenuation::TenX => 1,
            Attenuation::OneHundredX => 2,
        }
    }

    open spec fn variant(code: int) -> Self {
        if code <= 0 {
            Attenuation::OneX
        } else if code == 1 {
            Attenuation::TenX
        } else {
            Attenuation::OneHundredX
        }
    }

    fn try_from_primitive(number: u16) -> (outcome: Result<Attenuation, DecodeError>) {
        match number {
            0 => Ok(Attenuation::OneX),
            1 => Ok(Attenuation::TenX),
            2 => Ok(Attenuation::OneHundredX),
            _ => Err(DecodeError::UnknownEnumCode { field_name: EnumField::Attenuation, raw_code: number }),
        }
    }
}

/// Speed of the roll display.
#[derive(Clone, Copy, Debug, PartialEq, Eq, Structural)]
pub enum ScrollSpeed {
    Fast,
    Slow,
}

impl Setting for ScrollSpeed {
    open spec fn field() -> EnumField {
        EnumField::ScrollSpeed
    }

    open spec fn ordinal(self) -> int {
        match self {
            ScrollSpeed::Fast => 0,
            ScrollSpeed::Slow => 1,
        }
    }

    open spec fn variant(code: int) -> Self {
        if code <= 0 {
            ScrollSpeed::Fast
        } else {
            ScrollSpeed::Slow
        }
    }

    fn try_from_primitive(number: u16) -> (outcome: Result<ScrollSpeed, DecodeError>) {
        match number {
            0 => Ok(ScrollSpeed::Fast),
            1 => Ok(ScrollSpeed::Slow),
            _ => Err(DecodeError::UnknownEnumCode { field_name: EnumField::ScrollSpeed, raw_code: number }),
        }
    }
}

/// How the trigger re-arms.
#[derive(Clone, Copy, Debug, PartialEq, Eq, Structural)]
pub enum TriggerType {
    Auto,
    Single,
    Normal,
}

impl Setting for TriggerType {
    open spec fn field() -> EnumField {
        EnumField::TriggerType
    }

    open spec fn ordinal(self) -> int {
        match self {
            TriggerType::Auto => 0,
            TriggerType::Single => 1,
            TriggerType::Normal => 2,
        }
    }

    open spec fn variant(code: int) -> Self {
        if code <= 0 {
            TriggerType::Auto
        } else if code == 1 {
            TriggerType::Single
        } else {
            TriggerType::Normal
        }
    }

    fn try_from_primitive(number: u16) -> (outcome: Result<TriggerType, DecodeError>) {
        match number {
            0 => Ok(TriggerType::Auto),
            1 => Ok(TriggerType::Single),
            2 => Ok(TriggerType::Normal),
            _ => Err(DecodeError::UnknownEnumCode { field_name: EnumField::TriggerType, raw_code: number }),
        }
    }
}

/// Signal edge the trigger fires on.
#[derive(Clone, Copy, Debug, PartialEq, Eq, Structural)]
pub enum TriggerEdge {
    Rising,
    Falling,
}

impl Setting for TriggerEdge {
    open spec fn field() -> EnumField {
        EnumField::TriggerEdge
    }

    open spec fn ordinal(self) -> int {
        match self {
            TriggerEdge::Rising => 0,
            TriggerEdge::Falling => 1,
        }
    }

    open spec fn variant(code: int) -> Self {
        if code <= 0 {
            TriggerEdge::Rising
        } else {
            TriggerEdge::Falling
        }
    }

    fn try_from_primitive(number: u16) -> (outcome: Result<TriggerEdge, DecodeError>) {
        match number {
            0 => Ok(TriggerEdge::Rising),
            1 => Ok(TriggerEdge::Falling),
            _ => Err(DecodeError::UnknownEnumCode { field_name: EnumField::TriggerEdge, raw_code: number }),
        }
    }
}

/// Channel the trigger watches.
#[derive(Clone, Copy, Debug, PartialEq, Eq, Structural)]
pub enum TriggerChannel {
    Channel1,
    Channel2,
}

impl Setting for TriggerChannel {
    open spec fn field() -> EnumField {
        EnumField::TriggerChannel
    }

    open spec fn ordinal(self) -> int {
        match self {
            TriggerChannel::Channel1 => 0,
            TriggerChannel::Channel2 => 1,
        }
    }

    open spec fn variant(code: int) -> Self {
        if code <= 0 {
            TriggerChannel::Channel1
        } else {
            TriggerChannel::Channel2
        }
    }

    fn try_from_primitive(number: u16) -> (outcome: Result<TriggerChannel, DecodeError>) {
        match number {
            0 => Ok(TriggerChannel::Channel1),
            1 => Ok(TriggerChannel::Channel2),
            _ => Err(DecodeError::UnknownEnumCode { field_name: EnumField::TriggerChannel, raw_code: number }),
        }
    }
}

/// Whether the trigger level is held at half the signal's span.
#[derive(Clone, Copy, Debug, PartialEq, Eq, Structural)]
pub enum Trigger50 {
    On,
    Off,
}

impl Setting for Trigger50 {
    open spec fn field() -> EnumField {
        EnumField::Trigger50
    }

    open spec fn ordinal(self) -> int {
        match self {
            Trigger50::On => 0,
            Trigger50::Off => 1,
        }
    }

    open spec fn variant(code: int) -> Self {
        if code <= 0 {
            Trigger50::On
        } else {
            Trigger50::Off
        }
    }

    fn try_from_primitive(number: u16) -> (outcome: Result<Trigger50, DecodeError>) {
        match number {
            0 => Ok(Trigger50::On),
            1 => Ok(Trigger50::Off),
            _ => Err(DecodeError::UnknownEnumCode { field_name: EnumField::Trigger50, raw_code: number }),
        }
    }
}

} // verus!
