use geoconnect::record::ConversionError;
use geoconnect::record::Feature;
use geoconnect::record::RawFeature;
use geoconnect::record::SourceFieldValue;
use geoconnect::stream::FeatureStream;
use geoconnect::stream::LayerSelector;

fn raw(tag: i32) -> RawFeature {
    RawFeature {
        geometry_wkb: Some(vec![tag as u8]),
        fields: vec![(String::from("tag"), Some(SourceFieldValue::Integer(tag)))],
    }
}

fn drive(
    slots: &[Option<RawFeature>],
    count: u64,
) -> Vec<Result<Feature, ConversionError>> {
    let mut stream = FeatureStream::new(count);
    let mut out = Vec::new();
    loop {
        match stream.next_fetch_index() {
            None => break,
            Some(i) => {
                let fetched = slots[i as usize].clone();
                if let Some(res) = stream.on_slot(fetched, Some(4326)) {
                    out.push(res);
                }
            }
        }
    }
    assert!(stream.is_exhausted());
    assert_eq!(stream.next_fetch_index(), None);
    out
}

#[test]
fn full_dataset_yields_every_record_in_order() {
    let slots = vec![Some(raw(0)), Some(raw(1)), Some(raw(2))];
    let out = drive(&slots, 3);
    assert_eq!(out.len(), 3);
    for (i, res) in out.iter().enumerate() {
        let feature = res.as_ref().unwrap();
        assert_eq!(feature.geometry_wkb, vec![i as u8]);
    }
}

#[test]
fn absent_slots_are_skipped_without_errors_or_gaps() {
    let slots = vec![Some(raw(0)), None, Some(raw(2)), None];
    let out = drive(&slots, 4);
    assert_eq!(out.len(), 2);
    assert_eq!(out[0].as_ref().unwrap().geometry_wkb, vec![0]);
    assert_eq!(out[1].as_ref().unwrap().geometry_wkb, vec![2]);
}

#[test]
fn empty_dataset_yields_nothing() {
    let out = drive(&[], 0);
    assert!(out.is_empty());
}

#[test]
fn geometryless_feature_surfaces_an_error_for_that_item_only() {
    let bad = RawFeature { geometry_wkb: None, fields: vec![] };
    let slots = vec![Some(raw(0)), Some(bad), Some(raw(2))];
    let out = drive(&slots, 3);
    assert_eq!(out.len(), 3);
    assert!(out[0].is_ok());
    assert_eq!(out[1].as_ref().unwrap_err(), &ConversionError::MissingGeometry);
    assert!(out[2].is_ok());
}

#[test]
fn exhausted_stream_stays_exhausted() {
    let mut stream = FeatureStream::new(1);
    assert_eq!(stream.feature_count(), 1);
    assert!(!stream.is_exhausted());
    assert_eq!(stream.next_fetch_index(), Some(0));
    let res = stream.on_slot(Some(raw(0)), None);
    assert!(res.is_some());
    assert!(stream.is_exhausted());
    assert_eq!(stream.next_fetch_index(), None);
    assert_eq!(stream.next_fetch_index(), None);
}

#[test]
fn layer_selector_carries_index_or_name() {
    let by_index = LayerSelector::Index(2);
    let by_name = LayerSelector::Name(String::from("roads"));
    assert!(matches!(by_index, LayerSelector::Index(2)));
    assert!(matches!(by_name, LayerSelector::Name(ref n) if n == "roads"));
}
