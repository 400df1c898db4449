use geoconnect::connector::GeometryType;
use geoconnect::connector::LayerSource;
use geoconnect::ident::IdentifierError;
use geoconnect::postgis::connection_string;
use geoconnect::postgis::parse_geometry_type;
use geoconnect::postgis::MappingError;
use geoconnect::postgis::PostgisConnector;
use geoconnect::postgis::PostgresConfig;
use geoconnect::record::RealRepr;
use geoconnect::record::SourceFieldValue;
use geoconnect::schema::assemble_layer_schema;
use geoconnect::schema::FieldDefinition;
use geoconnect::schema::LayerSchema;
use geoconnect::schema::RawFieldDefinition;
use geoconnect::schema::RawLayerSchema;

fn connector() -> PostgisConnector {
    PostgisConnector::from_schema(String::from("public"))
}

fn real_repr(v: f64) -> RealRepr {
    RealRepr { text: format!("{}", v), finite: v.is_finite() }
}

#[test]
fn type_mapping_known_names() {
    let c = connector();
    assert_eq!(c.map_gdal_field_type("String"), "TEXT");
    assert_eq!(c.map_gdal_field_type("Integer"), "INTEGER");
    assert_eq!(c.map_gdal_field_type("Integer64"), "BIGINT");
    assert_eq!(c.map_gdal_field_type("Real"), "DOUBLE PRECISION");
    assert_eq!(c.map_gdal_field_type("Date"), "DATE");
    assert_eq!(c.map_gdal_field_type("Time"), "TIME");
    assert_eq!(c.map_gdal_field_type("DateTime"), "TIMESTAMP");
    assert_eq!(c.map_gdal_field_type("Binary"), "BYTEA");
    assert_eq!(c.map_gdal_field_type("StringList"), "TEXT[]");
    assert_eq!(c.map_gdal_field_type("IntegerList"), "INTEGER[]");
    assert_eq!(c.map_gdal_field_type("Integer64List"), "BIGINT[]");
    assert_eq!(c.map_gdal_field_type("RealList"), "DOUBLE PRECISION[]");
}

#[test]
fn type_mapping_unrecognized_names_fall_back_to_text() {
    let c = connector();
    assert_eq!(c.map_gdal_field_type("Bogus"), "TEXT");
    assert_eq!(c.map_gdal_field_type(""), "TEXT");
    assert_eq!(c.map_gdal_field_type("string"), "TEXT");
}

#[test]
fn connection_string_disable_ssl() {
    let config = PostgresConfig {
        user: String::from("u"),
        password: String::from("pw"),
        host: String::from("db.example"),
        port: 5432,
        database_name: String::from("gis"),
        schema: String::from("public"),
        max_connections: 5,
        disable_ssl: true,
    };
    assert_eq!(
        connection_string(&config),
        "postgresql://u:pw@db.example:5432/gis?sslmode=disable"
    );
}

#[test]
fn connection_string_require_ssl() {
    let config = PostgresConfig {
        user: String::from("alice"),
        password: String::from("s"),
        host: String::from("localhost"),
        port: 6543,
        database_name: String::from("d"),
        schema: String::from("s1"),
        max_connections: 1,
        disable_ssl: false,
    };
    assert_eq!(
        connection_string(&config),
        "postgresql://alice:s@localhost:6543/d?sslmode=require"
    );
}

#[test]
fn create_table_sql_for_roads_layer() {
    let c = connector();
    let schema = LayerSchema {
        layer_name: String::from("roads"),
        geometry_type: String::from("LineString"),
        srid: Some(4326),
        fields: vec![FieldDefinition {
            name: String::from("name"),
            field_type: String::from("TEXT"),
            width: None,
            precision: None,
            is_nullable: false,
        }],
        feature_count: 0,
    };
    let sql = c.generate_postgis_create_table_sql(&schema);
    assert!(sql.contains("id SERIAL PRIMARY KEY"));
    assert!(sql.contains("\"name\" TEXT NOT NULL"));
    assert!(sql.contains("geometry(LineString, 4326)"));
    assert_eq!(
        sql,
        "CREATE TABLE \"public\".\"roads\" (\n    id SERIAL PRIMARY KEY,\n    \"name\" TEXT NOT NULL,\n    \"geometry\" geometry(LineString, 4326)\n);"
    );
}

#[test]
fn create_table_sql_defaults_srid_and_keeps_nullable_columns_bare() {
    let c = connector();
    let schema = LayerSchema {
        layer_name: String::from("pts"),
        geometry_type: String::from("Point"),
        srid: None,
        fields: vec![FieldDefinition {
            name: String::from("note"),
            field_type: String::from("TEXT"),
            width: Some(8),
            precision: None,
            is_nullable: true,
        }],
        feature_count: 3,
    };
    let sql = c.generate_postgis_create_table_sql(&schema);
    assert!(sql.contains("\"note\" TEXT,\n"));
    assert!(!sql.contains("NOT NULL"));
    assert!(sql.contains("geometry(Point, 4326)"));
}

#[test]
fn float_sanitation_for_insert_values() {
    assert_eq!(
        PostgisConnector::format_field_value(&SourceFieldValue::Real(real_repr(f64::NAN))),
        "NULL"
    );
    assert_eq!(
        PostgisConnector::format_field_value(&SourceFieldValue::Real(real_repr(f64::INFINITY))),
        "NULL"
    );
    assert_eq!(
        PostgisConnector::format_field_value(&SourceFieldValue::Real(real_repr(f64::NEG_INFINITY))),
        "NULL"
    );
    assert_eq!(
        PostgisConnector::format_field_value(&SourceFieldValue::Real(real_repr(3.14))),
        "3.14"
    );
}

#[test]
fn scalar_insert_values() {
    assert_eq!(
        PostgisConnector::format_field_value(&SourceFieldValue::Integer(-7)),
        "-7"
    );
    assert_eq!(
        PostgisConnector::format_field_value(&SourceFieldValue::Integer64(9_007_199_254_740_993)),
        "9007199254740993"
    );
    assert_eq!(
        PostgisConnector::format_field_value(&SourceFieldValue::Text(String::from("O'Hara"))),
        "'O''Hara'"
    );
    assert_eq!(
        PostgisConnector::format_field_value(&SourceFieldValue::Date(String::from("2024-01-02"))),
        "'2024-01-02'"
    );
    assert_eq!(
        PostgisConnector::format_field_value(&SourceFieldValue::DateTime(String::from(
            "2024-01-02T03:04:05+00:00"
        ))),
        "'2024-01-02T03:04:05+00:00'"
    );
}

#[test]
fn list_insert_values_become_typed_arrays() {
    assert_eq!(
        PostgisConnector::format_field_value(&SourceFieldValue::IntegerList(vec![1, 2, 3])),
        "ARRAY[1, 2, 3]::integer[]"
    );
    assert_eq!(
        PostgisConnector::format_field_value(&SourceFieldValue::Integer64List(vec![-4])),
        "ARRAY[-4]::bigint[]"
    );
    assert_eq!(
        PostgisConnector::format_field_value(&SourceFieldValue::RealList(vec![
            real_repr(1.5),
            real_repr(2.0)
        ])),
        "ARRAY[1.5, 2]::double precision[]"
    );
    assert_eq!(
        PostgisConnector::format_field_value(&SourceFieldValue::TextList(vec![
            String::from("a'b"),
            String::from("c")
        ])),
        "ARRAY['a''b', 'c']::text[]"
    );
}

#[test]
fn insert_statement_skips_null_fields_and_appends_geometry() {
    let fields = vec![
        (String::from("name"), Some(SourceFieldValue::Text(String::from("x")))),
        (String::from("skipped"), None),
        (String::from("n"), Some(SourceFieldValue::Integer(2))),
    ];
    let sql = PostgisConnector::feature_to_insert_statement(
        &fields,
        Some("POINT(1 2)"),
        "public",
        "roads",
        None,
    );
    assert_eq!(
        sql,
        "INSERT INTO \"public\".\"roads\" (\"name\", \"n\", \"geometry\") VALUES ('x', 2, ST_GeomFromText('POINT(1 2)', 4326));"
    );
}

#[test]
fn insert_statement_honours_geometry_column_and_absence() {
    let fields = vec![(String::from("a"), Some(SourceFieldValue::Integer(1)))];
    let sql = PostgisConnector::feature_to_insert_statement(
        &fields,
        Some("POINT(0 0)"),
        "s",
        "t",
        Some("geom"),
    );
    assert!(sql.contains("\"geom\""));
    assert!(!sql.contains("\"geometry\""));
    let no_geom = PostgisConnector::feature_to_insert_statement(&fields, None, "s", "t", None);
    assert_eq!(no_geom, "INSERT INTO \"s\".\"t\" (\"a\") VALUES (1);");
}

#[test]
fn geometry_type_names_map_case_insensitively() {
    assert_eq!(parse_geometry_type("ST_POINT"), Ok(GeometryType::Point));
    assert_eq!(parse_geometry_type("st_point"), Ok(GeometryType::Point));
    assert_eq!(
        parse_geometry_type("St_LineString"),
        Ok(GeometryType::LineString)
    );
    assert_eq!(parse_geometry_type("ST_POLYGON"), Ok(GeometryType::Polygon));
    assert_eq!(
        parse_geometry_type("ST_MULTIPOINT"),
        Ok(GeometryType::MultiPoint)
    );
    assert_eq!(
        parse_geometry_type("ST_MULTILINESTRING"),
        Ok(GeometryType::MultiLineString)
    );
    assert_eq!(
        parse_geometry_type("ST_MULTIPOLYGON"),
        Ok(GeometryType::MultiPolygon)
    );
    assert_eq!(
        parse_geometry_type("ST_GEOMETRYCOLLECTION"),
        Ok(GeometryType::GeometryCollection)
    );
}

#[test]
fn unsupported_geometry_type_is_a_hard_error_with_the_name() {
    let e = parse_geometry_type("ST_BOGUS").unwrap_err();
    assert_eq!(
        e,
        MappingError::UnsupportedGeometryType(String::from("ST_BOGUS"))
    );
    assert_eq!(e.message(), "Unsupported geometry type: ST_BOGUS");
}

#[test]
fn tile_query_is_deterministic_and_parameterized() {
    let source = LayerSource::Database {
        namespace: String::from("public"),
        name: String::from("roads"),
        geometry_field: String::from("geom"),
        srid: 3857,
    };
    let q1 = PostgisConnector::generate_tile_query(&source).unwrap();
    let q2 = PostgisConnector::generate_tile_query(&source).unwrap();
    assert_eq!(q1, q2);
    assert!(q1.contains("ST_TileEnvelope($1, $2, $3), 3857"));
    assert!(q1.contains("t.\"geom\""));
    assert!(q1.contains("FROM \"public\".\"roads\" t"));
    assert!(q1.contains("4096"));
    assert!(q1.contains("256"));
    assert!(q1.contains("ST_AsMVT(mvt_data.*, $4) AS mvt"));
}

#[test]
fn tile_query_rejects_unsafe_identifiers_in_order() {
    let bad_ns = LayerSource::Database {
        namespace: String::from("pu;blic"),
        name: String::from(""),
        geometry_field: String::from("geom"),
        srid: 4326,
    };
    assert_eq!(
        PostgisConnector::generate_tile_query(&bad_ns),
        Err(IdentifierError::Unsafe)
    );
    let bad_table = LayerSource::Database {
        namespace: String::from("public"),
        name: String::from(""),
        geometry_field: String::from("geom"),
        srid: 4326,
    };
    assert_eq!(
        PostgisConnector::generate_tile_query(&bad_table),
        Err(IdentifierError::Empty)
    );
}

#[test]
fn geometry_type_query_quotes_all_identifiers() {
    let c = connector();
    let q = c.geometry_type_query("roads", "wkb_geometry").unwrap();
    assert_eq!(
        q,
        "SELECT DISTINCT ST_GeometryType(\"wkb_geometry\") \n            FROM \"public\".\"roads\" \n            LIMIT 1"
    );
    assert!(c.geometry_type_query("ro;ads", "geom").is_err());
}

#[test]
fn raw_schema_mapping_applies_types_and_normalizes_width() {
    let c = connector();
    let raw = RawLayerSchema {
        layer_name: String::from("roads"),
        geometry_type: String::from("Line String"),
        srid: Some(4326),
        fields: vec![
            RawFieldDefinition {
                name: String::from("name"),
                gdal_field_type: String::from("String"),
                width: 0,
                precision: 0,
                is_nullable: false,
            },
            RawFieldDefinition {
                name: String::from("lanes"),
                gdal_field_type: String::from("Integer64"),
                width: 10,
                precision: 2,
                is_nullable: true,
            },
        ],
        feature_count: 7,
    };
    let mapped = c.map_layer_schema(&raw);
    assert_eq!(mapped.layer_name, "roads");
    assert_eq!(mapped.geometry_type, "Line String");
    assert_eq!(mapped.srid, Some(4326));
    assert_eq!(mapped.feature_count, 7);
    assert_eq!(mapped.fields.len(), 2);
    assert_eq!(mapped.fields[0].name, "name");
    assert_eq!(mapped.fields[0].field_type, "TEXT");
    assert_eq!(mapped.fields[0].width, None);
    assert_eq!(mapped.fields[0].precision, None);
    assert!(!mapped.fields[0].is_nullable);
    assert_eq!(mapped.fields[1].name, "lanes");
    assert_eq!(mapped.fields[1].field_type, "BIGINT");
    assert_eq!(mapped.fields[1].width, Some(10));
    assert_eq!(mapped.fields[1].precision, Some(2));
    assert!(mapped.fields[1].is_nullable);
}

#[test]
fn schema_assembly_takes_supplied_types_in_field_order() {
    let raw = RawLayerSchema {
        layer_name: String::from("parcels"),
        geometry_type: String::from("Polygon"),
        srid: None,
        fields: vec![
            RawFieldDefinition {
                name: String::from("a"),
                gdal_field_type: String::from("Real"),
                width: 0,
                precision: 3,
                is_nullable: true,
            },
            RawFieldDefinition {
                name: String::from("b"),
                gdal_field_type: String::from("String"),
                width: 12,
                precision: 0,
                is_nullable: false,
            },
        ],
        feature_count: 1,
    };
    let types = vec![String::from("DOUBLE PRECISION"), String::from("TEXT")];
    let schema = assemble_layer_schema(&raw, &types);
    assert_eq!(schema.layer_name, "parcels");
    assert_eq!(schema.srid, None);
    assert_eq!(schema.fields[0].name, "a");
    assert_eq!(schema.fields[0].field_type, "DOUBLE PRECISION");
    assert_eq!(schema.fields[0].width, None);
    assert_eq!(schema.fields[0].precision, Some(3));
    assert_eq!(schema.fields[1].name, "b");
    assert_eq!(schema.fields[1].field_type, "TEXT");
    assert_eq!(schema.fields[1].width, Some(12));
    assert_eq!(schema.fields[1].precision, None);
}

#[test]
fn namespace_sql_validates_then_quotes() {
    assert_eq!(
        PostgisConnector::create_namespace_sql("tiles"),
        Ok(String::from("CREATE SCHEMA IF NOT EXISTS \"tiles\""))
    );
    assert_eq!(
        PostgisConnector::create_namespace_sql("til;es"),
        Err(IdentifierError::Unsafe)
    );
    assert_eq!(
        PostgisConnector::create_namespace_sql(""),
        Err(IdentifierError::Empty)
    );
}

#[test]
fn catalog_queries_bind_identifiers_as_parameters() {
    assert_eq!(
        PostgisConnector::list_sources_query(),
        "SELECT table_name FROM information_schema.tables WHERE table_schema = $1"
    );
    let probe = PostgisConnector::geometry_column_probe_query();
    assert!(probe.contains("table_name = $1"));
    assert!(probe.contains("table_schema = $2"));
    assert!(probe.contains("'geom', 'geometry', 'geoms', 'wkb_geometry'"));
}

#[test]
fn extreme_integers_render_exactly() {
    assert_eq!(
        PostgisConnector::format_field_value(&SourceFieldValue::Integer64(i64::MIN)),
        "-9223372036854775808"
    );
    assert_eq!(
        PostgisConnector::format_field_value(&SourceFieldValue::Integer64(i64::MAX)),
        "9223372036854775807"
    );
    assert_eq!(
        PostgisConnector::format_field_value(&SourceFieldValue::Integer(i32::MIN)),
        "-2147483648"
    );
    assert_eq!(
        PostgisConnector::format_field_value(&SourceFieldValue::Integer(0)),
        "0"
    );
}
