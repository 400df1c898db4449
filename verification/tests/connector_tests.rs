use geoconnect::connector::ConnectorKind;
use geoconnect::connector::GeometryType;
use geoconnect::connector::LayerLocation;
use geoconnect::layer::LayerStatus;
use geoconnect::layer::Srid;

#[test]
fn capability_table() {
    assert!(ConnectorKind::Vector.is_vector());
    assert!(!ConnectorKind::Vector.is_raster());
    assert!(!ConnectorKind::Vector.is_hybrid());
    assert!(!ConnectorKind::Raster.is_vector());
    assert!(ConnectorKind::Raster.is_raster());
    assert!(!ConnectorKind::Raster.is_hybrid());
    assert!(ConnectorKind::Hybrid.is_vector());
    assert!(ConnectorKind::Hybrid.is_raster());
    assert!(ConnectorKind::Hybrid.is_hybrid());
}

#[test]
fn geometry_types_are_distinct() {
    assert_ne!(GeometryType::Point, GeometryType::MultiPoint);
    assert_ne!(GeometryType::LineString, GeometryType::MultiLineString);
    assert_ne!(GeometryType::Polygon, GeometryType::GeometryCollection);
}

#[test]
fn layer_location_names_a_namespaced_layer() {
    let loc = LayerLocation::Database {
        namespace: String::from("public"),
        name: String::from("roads"),
    };
    assert!(
        matches!(loc, LayerLocation::Database { ref namespace, ref name }
            if namespace == "public" && name == "roads")
    );
}

#[test]
fn srid_codes_round_trip() {
    assert_eq!(Srid::Epsg3857.code(), 3857);
    assert_eq!(Srid::Epsg4326.code(), 4326);
    assert_eq!(Srid::Epsg3857.code_str(), "3857");
    assert_eq!(Srid::Epsg4326.code_str(), "4326");
    assert_eq!(Srid::from_code_str("3857"), Some(Srid::Epsg3857));
    assert_eq!(Srid::from_code_str("4326"), Some(Srid::Epsg4326));
    assert_eq!(Srid::from_code_str("9999"), None);
    assert_eq!(
        Srid::from_code_str(&Srid::Epsg3857.code_str()),
        Some(Srid::Epsg3857)
    );
    assert_eq!(
        Srid::from_code_str(&Srid::Epsg4326.code_str()),
        Some(Srid::Epsg4326)
    );
}

#[test]
fn layer_status_names() {
    assert_eq!(LayerStatus::Uploading.name(), "Uploading");
    assert_eq!(LayerStatus::Processing.name(), "Processing");
    assert_eq!(LayerStatus::Ready.name(), "Ready");
    assert_eq!(LayerStatus::Error.name(), "Error");
    assert_eq!(LayerStatus::Cancelled.name(), "Cancelled");
    assert_eq!(LayerStatus::Failed.name(), "Failed");
}
