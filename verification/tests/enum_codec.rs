use scope_capture::codes::{
    variant_count, Attenuation, Coupling, ScrollSpeed, Setting, Trigger50, TriggerChannel,
    TriggerEdge, TriggerType,
};
use scope_capture::error::{DecodeError, EnumField};

#[test]
fn coupling_codes_resolve_in_declaration_order() {
    assert_eq!(Coupling::try_from_primitive(0), Ok(Coupling::DC));
    assert_eq!(Coupling::try_from_primitive(1), Ok(Coupling::AC));
}

#[test]
fn attenuation_codes_resolve_in_declaration_order() {
    assert_eq!(Attenuation::try_from_primitive(0), Ok(Attenuation::OneX));
    assert_eq!(Attenuation::try_from_primitive(1), Ok(Attenuation::TenX));
    assert_eq!(Attenuation::try_from_primitive(2), Ok(Attenuation::OneHundredX));
}

#[test]
fn scroll_speed_codes_resolve_in_declaration_order() {
    assert_eq!(ScrollSpeed::try_from_primitive(0), Ok(ScrollSpeed::Fast));
    assert_eq!(ScrollSpeed::try_from_primitive(1), Ok(ScrollSpeed::Slow));
}

#[test]
fn trigger_type_codes_resolve_in_declaration_order() {
    assert_eq!(TriggerType::try_from_primitive(0), Ok(TriggerType::Auto));
    assert_eq!(TriggerType::try_from_primitive(1), Ok(TriggerType::Single));
    assert_eq!(TriggerType::try_from_primitive(2), Ok(TriggerType::Normal));
}

#[test]
fn trigger_edge_codes_resolve_in_declaration_order() {
    assert_eq!(TriggerEdge::try_from_primitive(0), Ok(TriggerEdge::Rising));
    assert_eq!(TriggerEdge::try_from_primitive(1), Ok(TriggerEdge::Falling));
}

#[test]
fn trigger_channel_codes_resolve_in_declaration_order() {
    assert_eq!(TriggerChannel::try_from_primitive(0), Ok(TriggerChannel::Channel1));
    assert_eq!(TriggerChannel::try_from_primitive(1), Ok(TriggerChannel::Channel2));
}

#[test]
fn trigger_50_codes_resolve_in_declaration_order() {
    assert_eq!(Trigger50::try_from_primitive(0), Ok(Trigger50::On));
    assert_eq!(Trigger50::try_from_primitive(1), Ok(Trigger50::Off));
}

#[test]
fn variant_counts_of_the_seven_sets() {
    assert_eq!(variant_count(EnumField::Coupling), 2);
    assert_eq!(variant_count(EnumField::Attenuation), 3);
    assert_eq!(variant_count(EnumField::ScrollSpeed), 2);
    assert_eq!(variant_count(EnumField::TriggerType), 3);
    assert_eq!(variant_count(EnumField::TriggerEdge), 2);
    assert_eq!(variant_count(EnumField::TriggerChannel), 2);
    assert_eq!(variant_count(EnumField::Trigger50), 2);
}

#[test]
fn first_code_past_each_set_is_unknown() {
    assert_eq!(
        Coupling::try_from_primitive(2),
        Err(DecodeError::UnknownEnumCode { field_name: EnumField::Coupling, raw_code: 2 })
    );
    assert_eq!(
        Attenuation::try_from_primitive(3),
        Err(DecodeError::UnknownEnumCode { field_name: EnumField::Attenuation, raw_code: 3 })
    );
    assert_eq!(
        ScrollSpeed::try_from_primitive(2),
        Err(DecodeError::UnknownEnumCode { field_name: EnumField::ScrollSpeed, raw_code: 2 })
    );
    assert_eq!(
        TriggerType::try_from_primitive(3),
        Err(DecodeError::UnknownEnumCode { field_name: EnumField::TriggerType, raw_code: 3 })
    );
    assert_eq!(
        TriggerEdge::try_from_primitive(2),
        Err(DecodeError::UnknownEnumCode { field_name: EnumField::TriggerEdge, raw_code: 2 })
    );
    assert_eq!(
        TriggerChannel::try_from_primitive(2),
        Err(DecodeError::UnknownEnumCode { field_name: EnumField::TriggerChannel, raw_code: 2 })
    );
    assert_eq!(
        Trigger50::try_from_primitive(2),
        Err(DecodeError::UnknownEnumCode { field_name: EnumField::Trigger50, raw_code: 2 })
    );
}

#[test]
fn every_code_past_a_set_is_unknown() {
    for code in 2..=u16::MAX {
        assert_eq!(
            Coupling::try_from_primitive(code),
            Err(DecodeError::UnknownEnumCode { field_name: EnumField::Coupling, raw_code: code })
        );
        assert!(Trigger50::try_from_primitive(code).is_err());
        assert!(TriggerEdge::try_from_primitive(code).is_err());
    }
    for code in 3..=u16::MAX {
        assert_eq!(
            TriggerType::try_from_primitive(code),
            Err(DecodeError::UnknownEnumCode {
                field_name: EnumField::TriggerType,
                raw_code: code
            })
        );
        assert!(Attenuation::try_from_primitive(code).is_err());
    }
}

#[test]
fn largest_code_is_unknown_and_reported_verbatim() {
    assert_eq!(
        Trigger50::try_from_primitive(u16::MAX),
        Err(DecodeError::UnknownEnumCode { field_name: EnumField::Trigger50, raw_code: 65535 })
    );
}
