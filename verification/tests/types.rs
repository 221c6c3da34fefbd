use pigeon::types::{
    all_pub_types, pub_type_from_index, pub_type_index, pub_type_name, str_to_pub_type, PubType,
    PUB_TYPE_COUNT,
};

#[test]
fn names_parse_back_to_their_kind() {
    for kind in all_pub_types() {
        let name = pub_type_name(kind);
        assert_eq!(str_to_pub_type(&name), Some(kind));
    }
}

#[test]
fn names_have_their_exact_spelling() {
    assert_eq!(pub_type_name(PubType::PressureSensorTemperature), "PressureSensorTemperature");
    assert_eq!(pub_type_name(PubType::LongDistanceSensor), "LongDistanceSensor");
    assert_eq!(pub_type_name(PubType::IsFalling), "IsFalling");
    assert_eq!(pub_type_name(PubType::PowerButton), "PowerButton");
}

#[test]
fn unknown_names_are_rejected() {
    assert_eq!(str_to_pub_type(""), None);
    assert_eq!(str_to_pub_type("Altimeter"), None);
    assert_eq!(str_to_pub_type("isfalling"), None);
    assert_eq!(str_to_pub_type("IsFalling "), None);
}

#[test]
fn kind_list_is_closed_and_ordered() {
    let kinds = all_pub_types();
    assert_eq!(kinds.len(), PUB_TYPE_COUNT);
    for (i, &kind) in kinds.iter().enumerate() {
        assert_eq!(pub_type_index(kind), i);
        assert_eq!(pub_type_from_index(i), Some(kind));
    }
    assert_eq!(pub_type_from_index(PUB_TYPE_COUNT), None);
}

#[test]
fn wire_tags_are_stable() {
    assert_eq!(pub_type_index(PubType::PressureSensorTemperature), 0);
    assert_eq!(pub_type_index(PubType::PressureSensorPressure), 1);
    assert_eq!(pub_type_index(PubType::LongDistanceSensor), 2);
    assert_eq!(pub_type_index(PubType::AccelerometerZ), 3);
    assert_eq!(pub_type_index(PubType::GyroscopeX), 4);
    assert_eq!(pub_type_index(PubType::GyroscopeY), 5);
    assert_eq!(pub_type_index(PubType::IsFalling), 6);
    assert_eq!(pub_type_index(PubType::PowerButton), 7);
}
