use geoconnect::record::convert_feature;
use geoconnect::record::convert_value;
use geoconnect::record::ConversionError;
use geoconnect::record::FieldMap;
use geoconnect::record::FieldValue;
use geoconnect::record::RawFeature;
use geoconnect::record::RealRepr;
use geoconnect::record::SourceFieldValue;

fn real_repr(v: f64) -> RealRepr {
    RealRepr { text: format!("{}", v), finite: v.is_finite() }
}

#[test]
fn scalar_values_carry_over() {
    assert_eq!(
        convert_value(SourceFieldValue::Text(String::from("hi"))),
        FieldValue::Text(String::from("hi"))
    );
    assert_eq!(
        convert_value(SourceFieldValue::Integer(41)),
        FieldValue::Integer(41)
    );
    assert_eq!(
        convert_value(SourceFieldValue::Integer64(-9)),
        FieldValue::Integer(-9)
    );
    assert_eq!(
        convert_value(SourceFieldValue::Real(real_repr(2.5))),
        FieldValue::Real(real_repr(2.5))
    );
    assert_eq!(
        convert_value(SourceFieldValue::Date(String::from("2023-12-31"))),
        FieldValue::Date(String::from("2023-12-31"))
    );
    assert_eq!(
        convert_value(SourceFieldValue::DateTime(String::from("2023-12-31T01:02:03"))),
        FieldValue::DateTime(String::from("2023-12-31T01:02:03"))
    );
}

#[test]
fn list_values_flatten_to_text() {
    assert_eq!(
        convert_value(SourceFieldValue::IntegerList(vec![1, 2, 3])),
        FieldValue::Text(String::from("[1, 2, 3]"))
    );
    assert_eq!(
        convert_value(SourceFieldValue::Integer64List(vec![-1])),
        FieldValue::Text(String::from("[-1]"))
    );
    assert_eq!(
        convert_value(SourceFieldValue::RealList(vec![real_repr(1.5), real_repr(2.0)])),
        FieldValue::Text(String::from("[1.5, 2]"))
    );
    assert_eq!(
        convert_value(SourceFieldValue::TextList(vec![
            String::from("a"),
            String::from("b")
        ])),
        FieldValue::Text(String::from("a,b"))
    );
    assert_eq!(
        convert_value(SourceFieldValue::IntegerList(vec![])),
        FieldValue::Text(String::from("[]"))
    );
}

#[test]
fn field_map_inserts_and_replaces() {
    let mut m = FieldMap::new();
    m.insert(String::from("a"), FieldValue::Integer(1));
    m.insert(String::from("b"), FieldValue::Integer(2));
    assert_eq!(m.len(), 2);
    m.insert(String::from("a"), FieldValue::Integer(3));
    assert_eq!(m.len(), 2);
    assert_eq!(m.get("a"), Some(&FieldValue::Integer(3)));
    assert_eq!(m.get("b"), Some(&FieldValue::Integer(2)));
    assert_eq!(m.get("c"), None);
}

#[test]
fn missing_geometry_is_a_conversion_error() {
    let raw = RawFeature {
        geometry_wkb: None,
        fields: vec![(String::from("a"), Some(SourceFieldValue::Integer(1)))],
    };
    let err = convert_feature(raw, Some(4326)).unwrap_err();
    assert_eq!(err, ConversionError::MissingGeometry);
    assert_eq!(err.message(), "Feature has no geometry");
}

#[test]
fn present_geometry_yields_a_record_with_all_fields() {
    let raw = RawFeature {
        geometry_wkb: Some(vec![1, 2, 3]),
        fields: vec![
            (String::from("a"), Some(SourceFieldValue::Integer(5))),
            (String::from("b"), None),
            (String::from("c"), Some(SourceFieldValue::Text(String::from("t")))),
        ],
    };
    let feature = convert_feature(raw, Some(4326)).unwrap();
    assert_eq!(feature.geometry_wkb, vec![1, 2, 3]);
    assert_eq!(feature.srid, Some(4326));
    assert_eq!(feature.fields.len(), 3);
    assert_eq!(feature.fields.get("a"), Some(&FieldValue::Integer(5)));
    assert_eq!(feature.fields.get("b"), Some(&FieldValue::Null));
    assert_eq!(
        feature.fields.get("c"),
        Some(&FieldValue::Text(String::from("t")))
    );
}

#[test]
fn later_duplicate_field_name_wins() {
    let raw = RawFeature {
        geometry_wkb: Some(vec![9]),
        fields: vec![
            (String::from("a"), Some(SourceFieldValue::Integer(1))),
            (String::from("a"), Some(SourceFieldValue::Integer(2))),
        ],
    };
    let feature = convert_feature(raw, None).unwrap();
    assert_eq!(feature.srid, None);
    assert_eq!(feature.fields.len(), 1);
    assert_eq!(feature.fields.get("a"), Some(&FieldValue::Integer(2)));
}

#[test]
fn field_entries_keep_insertion_order() {
    let raw = RawFeature {
        geometry_wkb: Some(vec![0]),
        fields: vec![
            (String::from("z"), Some(SourceFieldValue::Integer(1))),
            (String::from("a"), Some(SourceFieldValue::Integer(2))),
        ],
    };
    let feature = convert_feature(raw, None).unwrap();
    assert_eq!(feature.fields.entry_at(0).0, "z");
    assert_eq!(feature.fields.entry_at(1).0, "a");
    assert_eq!(feature.fields.entry_at(1).1, FieldValue::Integer(2));
}
