//! The PostGIS connector's verified core: connection-string construction,
//! identifier-safe SQL synthesis for table creation, sparse inserts and
//! vector-tile queries, and the backend type-mapping tables. The pooled
//! asynchronous execution of these statements lives outside the verified
//! core; everything that decides what SQL text is sent lives here.
use vstd::prelude::*;
use vstd::string::StringExecFns;
use crate::connector::GeometryType;
use crate::connector::LayerSource;
use crate::ident::identifier_error_of;
use crate::ident::identifier_ok;
use crate::ident::quote_identifier;
use crate::ident::quoted_identifier;
use crate::ident::seq_eq_ci;
use crate::ident::str_eq_ci;
use crate::ident::IdentifierError;
use crate::record::RealRepr;
use crate::record::SourceFieldValue;
use crate::strutil::escape_by_doubling;
use crate::strutil::escape_doubling;
use crate::strutil::i64_to_dec_string;
use crate::strutil::join_strings;
use crate::strutil::join_with;
use crate::schema::FieldDefinition;
use crate::schema::LayerSchema;
use crate::schema::RawLayerSchema;
use crate::strutil::dec_rep;
use crate::strutil::dec_rep_signed;
use crate::strutil::i32_to_dec_string;
use crate::strutil::str_eq;
use crate::strutil::u64_to_dec_string;

verus! {

/// Construction-time configuration of the PostGIS connector: used only to
/// build the pooled connection.
#[derive(Clone, Debug)]
pub struct PostgresConfig {
    pub user: String,
    pub password: String,
    pub host: String,
    pub port: u16,
    pub database_name: String,
    pub schema: String,
    pub max_connections: u32,
    pub disable_ssl: bool,
}

/// The PostGIS-backed vector connector's decision core: the immutable
/// default schema bound at construction, and every rule that decides what
/// SQL text is sent. The pooled connection set that executes the statements
/// is owned by the asynchronous shell around this core.
pub struct PostgisConnector {
    pub schema: String,
}

/// The TLS mode keyword of a connection string.
pub open spec fn sslmode_spec(disable_ssl: bool) -> Seq<char> {
    if disable_ssl {
        "disable"@
    } else {
        "require"@
    }
}

/// The connection string the connector is constructed from.
pub open spec fn connection_string_spec(config: PostgresConfig) -> Seq<char> {
    "postgresql://"@ + config.user@ + ":"@ + config.password@ + "@"@ + config.host@ + ":"@
        + dec_rep(config.port as int) + "/"@ + config.database_name@ + "?sslmode="@ + sslmode_spec(
        config.disable_ssl,
    )
}

/// Builds the connection string for a configuration.
pub fn connection_string(config: &PostgresConfig) -> (r: String)
    ensures
        r@ == connection_string_spec(*config),
{
    let mut r = String::from_str("postgresql://");
    r.append(config.user.as_str());
    r.append(":");
    r.append(config.password.as_str());
    r.append("@");
    r.append(config.host.as_str());
    r.append(":");
    let port = u64_to_dec_string(config.port as u64);
    r.append(port.as_str());
    r.append("/");
    r.append(config.database_name.as_str());
    r.append("?sslmode=");
    if config.disable_ssl {
        r.append("disable");
    } else {
        r.append("require");
    }
    proof {
        assert(r@ =~= connection_string_spec(*config));
    }
    r
}

impl PostgisConnector {
    /// Binds the decision core to its default schema. Opening the connection
    /// pool is asynchronous work done outside the verified core; the
    /// connector cannot exist unconnected.
    pub fn from_schema(schema: String) -> (r: Self)
        ensures
            r.schema@ == schema@,
    {
        PostgisConnector { schema }
    }

    /// Maps a native field type name to the PostGIS column type; every
    /// unrecognized name falls back to TEXT.
    pub fn map_gdal_field_type(&self, field_type_str: &str) -> (r: String)
        ensures
            r@ == map_gdal_field_type_spec(field_type_str@),
    {
        if str_eq(field_type_str, "String") {
            String::from_str("TEXT")
        } else if str_eq(field_type_str, "Integer") {
            String::from_str("INTEGER")
        } else if str_eq(field_type_str, "Integer64") {
            String::from_str("BIGINT")
        } else if str_eq(field_type_str, "Real") {
            String::from_str("DOUBLE PRECISION")
        } else if str_eq(field_type_str, "Date") {
            String::from_str("DATE")
        } else if str_eq(field_type_str, "Time") {
            String::from_str("TIME")
        } else if str_eq(field_type_str, "DateTime") {
            String::from_str("TIMESTAMP")
        } else if str_eq(field_type_str, "Binary") {
            String::from_str("BYTEA")
        } else if str_eq(field_type_str, "StringList") {
            String::from_str("TEXT[]")
        } else if str_eq(field_type_str, "IntegerList") {
            String::from_str("INTEGER[]")
        } else if str_eq(field_type_str, "Integer64List") {
            String::from_str("BIGINT[]")
        } else if str_eq(field_type_str, "RealList") {
            String::from_str("DOUBLE PRECISION[]")
        } else {
            String::from_str("TEXT")
        }
    }
}

/// The fixed, total mapping from native field type names to PostGIS column
/// types; unrecognized names map to TEXT.
pub open spec fn map_gdal_field_type_spec(s: Seq<char>) -> Seq<char> {
    if s == "String"@ {
        "TEXT"@
    } else if s == "Integer"@ {
        "INTEGER"@
    } else if s == "Integer64"@ {
        "BIGINT"@
    } else if s == "Real"@ {
        "DOUBLE PRECISION"@
    } else if s == "Date"@ {
        "DATE"@
    } else if s == "Time"@ {
        "TIME"@
    } else if s == "DateTime"@ {
        "TIMESTAMP"@
    } else if s == "Binary"@ {
        "BYTEA"@
    } else if s == "StringList"@ {
        "TEXT[]"@
    } else if s == "IntegerList"@ {
        "INTEGER[]"@
    } else if s == "Integer64List"@ {
        "BIGINT[]"@
    } else if s == "RealList"@ {
        "DOUBLE PRECISION[]"@
    } else {
        "TEXT"@
    }
}

/// Why mapping a backend-reported name failed.
#[derive(Clone, Debug, PartialEq)]
pub enum MappingError {
    /// The backend reported a geometry type outside the supported set; the
    /// offending name is carried along.
    UnsupportedGeometryType(String),
}

impl MappingError {
    /// A human-readable cause, as surfaced to callers.
    pub fn message(&self) -> (r: String)
        ensures
            *self matches MappingError::UnsupportedGeometryType(n) ==> r@
                == "Unsupported geometry type: "@ + n@,
    {
        match self {
            MappingError::UnsupportedGeometryType(n) => {
                let mut r = String::from_str("Unsupported geometry type: ");
                r.append(n.as_str());
                r
            },
        }
    }
}

/// The abstract geometry type a backend-reported name denotes, compared
/// ignoring ASCII case; `None` for every name outside the supported set.
pub open spec fn geometry_type_from_name(s: Seq<char>) -> Option<GeometryType> {
    if seq_eq_ci(s, "ST_POINT"@) {
        Some(GeometryType::Point)
    } else if seq_eq_ci(s, "ST_LINESTRING"@) {
        Some(GeometryType::LineString)
    } else if seq_eq_ci(s, "ST_POLYGON"@) {
        Some(GeometryType::Polygon)
    } else if seq_eq_ci(s, "ST_MULTIPOINT"@) {
        Some(GeometryType::MultiPoint)
    } else if seq_eq_ci(s, "ST_MULTILINESTRING"@) {
        Some(GeometryType::MultiLineString)
    } else if seq_eq_ci(s, "ST_MULTIPOLYGON"@) {
        Some(GeometryType::MultiPolygon)
    } else if seq_eq_ci(s, "ST_GEOMETRYCOLLECTION"@) {
        Some(GeometryType::GeometryCollection)
    } else {
        None
    }
}

/// Maps the geometry type name the backend reports to the abstract geometry
/// type; an unrecognized name is a hard error that carries the name.
pub fn parse_geometry_type(geom_type: &str) -> (r: Result<GeometryType, MappingError>)
    ensures
        r is Ok <==> geometry_type_from_name(geom_type@) is Some,
        r is Ok ==> Some(r->Ok_0) == geometry_type_from_name(geom_type@),
        r is Err ==> (r->Err_0 matches MappingError::UnsupportedGeometryType(n) && n@
            == geom_type@),
{
    if str_eq_ci(geom_type, "ST_POINT") {
        Ok(GeometryType::Point)
    } else if str_eq_ci(geom_type, "ST_LINESTRING") {
        Ok(GeometryType::LineString)
    } else if str_eq_ci(geom_type, "ST_POLYGON") {
        Ok(GeometryType::Polygon)
    } else if str_eq_ci(geom_type, "ST_MULTIPOINT") {
        Ok(GeometryType::MultiPoint)
    } else if str_eq_ci(geom_type, "ST_MULTILINESTRING") {
        Ok(GeometryType::MultiLineString)
    } else if str_eq_ci(geom_type, "ST_MULTIPOLYGON") {
        Ok(GeometryType::MultiPolygon)
    } else if str_eq_ci(geom_type, "ST_GEOMETRYCOLLECTION") {
        Ok(GeometryType::GeometryCollection)
    } else {
        Err(MappingError::UnsupportedGeometryType(String::from_str(geom_type)))
    }
}

/// The leading part of the CREATE TABLE statement: the qualified table name
/// and the surrogate primary key column.
pub open spec fn ddl_header(schema_name: Seq<char>, layer_name: Seq<char>) -> Seq<char> {
    "CREATE TABLE \""@ + schema_name + "\".\""@ + layer_name + "\" (\n"@
        + "    id SERIAL PRIMARY KEY,\n"@
}

/// One attribute column: quoted name, backend type taken verbatim, NOT NULL
/// appended for a non-nullable field.
pub open spec fn column_def_text(f: FieldDefinition) -> Seq<char> {
    "    \""@ + f.name@ + "\" "@ + f.field_type@ + (if f.is_nullable {
        Seq::<char>::empty()
    } else {
        " NOT NULL"@
    }) + ",\n"@
}

/// All attribute columns, in schema order.
pub open spec fn columns_text(fields: Seq<FieldDefinition>) -> Seq<char>
    decreases fields.len(),
{
    if fields.len() == 0 {
        Seq::<char>::empty()
    } else {
        columns_text(fields.drop_last()) + column_def_text(fields.last())
    }
}

/// The SRID a layer's geometry column is typed with: the schema's, or the
/// WGS84 default when unspecified.
pub open spec fn srid_or_default(srid: Option<i32>) -> int {
    match srid {
        Some(s) => s as int,
        None => 4326,
    }
}

/// The trailing geometry column and statement close.
pub open spec fn ddl_geometry_tail(geometry_type: Seq<char>, srid: int) -> Seq<char> {
    "    \"geometry\" geometry("@ + geometry_type + ", "@ + dec_rep_signed(srid) + ")\n"@ + ");"@
}

/// The complete CREATE TABLE statement for a mapped layer schema.
pub open spec fn create_table_sql_spec(schema_name: Seq<char>, layer: LayerSchema) -> Seq<char> {
    ddl_header(schema_name, layer.layer_name@) + columns_text(layer.fields@) + ddl_geometry_tail(
        layer.geometry_type@,
        srid_or_default(layer.srid),
    )
}

impl PostgisConnector {
    /// Generates the CREATE TABLE statement for a layer schema: a surrogate
    /// primary key, one column per field, and a trailing geometry column
    /// typed with the schema's geometry type and SRID.
    pub fn generate_postgis_create_table_sql(&self, schema: &LayerSchema) -> (r: String)
        ensures
            r@ == create_table_sql_spec(self.schema@, *schema),
    {
        let mut sql = String::from_str("CREATE TABLE \"");
        sql.append(self.schema.as_str());
        sql.append("\".\"");
        sql.append(schema.layer_name.as_str());
        sql.append("\" (\n");
        sql.append("    id SERIAL PRIMARY KEY,\n");
        proof {
            assert(sql@ =~= ddl_header(self.schema@, schema.layer_name@));
        }
        let n = schema.fields.len();
        let mut i: usize = 0;
        while i < n
            invariant
                n == schema.fields@.len(),
                i <= n,
                sql@ == ddl_header(self.schema@, schema.layer_name@) + columns_text(
                    schema.fields@.subrange(0, i as int),
                ),
            decreases n - i,
        {
            let f = &schema.fields[i];
            sql.append("    \"");
            sql.append(f.name.as_str());
            sql.append("\" ");
            sql.append(f.field_type.as_str());
            if !f.is_nullable {
                sql.append(" NOT NULL");
            }
            sql.append(",\n");
            proof {
                let sub = schema.fields@.subrange(0, i + 1 as int);
                assert(sub.drop_last() =~= schema.fields@.subrange(0, i as int));
                assert(sub.last() == schema.fields@[i as int]);
                assert(sql@ =~= ddl_header(self.schema@, schema.layer_name@) + columns_text(sub));
            }
            i += 1;
        }
        sql.append("    \"geometry\" geometry(");
        sql.append(schema.geometry_type.as_str());
        sql.append(", ");
        let srid = match schema.srid {
            Some(s) => s,
            None => 4326,
        };
        let srid_str = i32_to_dec_string(srid);
        sql.append(srid_str.as_str());
        sql.append(")\n");
        sql.append(");");
        proof {
            assert(schema.fields@.subrange(0, n as int) =~= schema.fields@);
            assert(sql@ =~= create_table_sql_spec(self.schema@, *schema));
        }
        sql
    }

    /// Applies the backend type mapping to a raw layer schema, normalizing
    /// width and precision of zero to absent, and keeping name, nullability
    /// and field order.
    pub fn map_layer_schema(&self, raw: &RawLayerSchema) -> (r: LayerSchema)
        ensures
            r.layer_name@ == raw.layer_name@,
            r.geometry_type@ == raw.geometry_type@,
            r.srid == raw.srid,
            r.feature_count == raw.feature_count,
            r.fields@.len() == raw.fields@.len(),
            forall|i: int|
                0 <= i < raw.fields@.len() ==> {
                    let rf = raw.fields@[i];
                    let mf = #[trigger] r.fields@[i];
                    mf.name@ == rf.name@ && mf.field_type@ == map_gdal_field_type_spec(
                        rf.gdal_field_type@,
                    ) && mf.width == (if rf.width > 0 {
                        Some(rf.width)
                    } else {
                        None::<i32>
                    }) && mf.precision == (if rf.precision > 0 {
                        Some(rf.precision)
                    } else {
                        None::<i32>
                    }) && mf.is_nullable == rf.is_nullable
                },
    {
        let n = raw.fields.len();
        let mut mapped: Vec<FieldDefinition> = Vec::new();
        let mut i: usize = 0;
        while i < n
            invariant
                n == raw.fields@.len(),
                i <= n,
                mapped@.len() == i,
                forall|j: int|
                    0 <= j < i ==> {
                        let rf = raw.fields@[j];
                        let mf = #[trigger] mapped@[j];
                        mf.name@ == rf.name@ && mf.field_type@ == map_gdal_field_type_spec(
                            rf.gdal_field_type@,
                        ) && mf.width == (if rf.width > 0 {
                            Some(rf.width)
                        } else {
                            None::<i32>
                        }) && mf.precision == (if rf.precision > 0 {
                            Some(rf.precision)
                        } else {
                            None::<i32>
                        }) && mf.is_nullable == rf.is_nullable
                    },
            decreases n - i,
        {
            let rf = &raw.fields[i];
            let field_def = FieldDefinition {
                name: rf.name.clone(),
                field_type: self.map_gdal_field_type(rf.gdal_field_type.as_str()),
                width: if rf.width > 0 {
                    Some(rf.width)
                } else {
                    None
                },
                precision: if rf.precision > 0 {
                    Some(rf.precision)
                } else {
                    None
                },
                is_nullable: rf.is_nullable,
            };
            mapped.push(field_def);
            i += 1;
        }
        LayerSchema {
            layer_name: raw.layer_name.clone(),
            geometry_type: raw.geometry_type.clone(),
            srid: raw.srid,
            fields: mapped,
            feature_count: raw.feature_count,
        }
    }
}

/// Type mapping totality: every input, recognized or not, maps to a
/// non-empty backend type string.
pub proof fn lemma_type_mapping_total(s: Seq<char>)
    ensures
        map_gdal_field_type_spec(s).len() > 0,
{
    reveal_strlit("TEXT");
    reveal_strlit("INTEGER");
    reveal_strlit("BIGINT");
    reveal_strlit("DOUBLE PRECISION");
    reveal_strlit("DATE");
    reveal_strlit("TIME");
    reveal_strlit("TIMESTAMP");
    reveal_strlit("BYTEA");
    reveal_strlit("TEXT[]");
    reveal_strlit("INTEGER[]");
    reveal_strlit("BIGINT[]");
    reveal_strlit("DOUBLE PRECISION[]");
}

/// A text value as it appears in SQL: wrapped in single quotes, embedded
/// single quotes doubled.
pub open spec fn sql_quoted_text(s: Seq<char>) -> Seq<char> {
    "'"@ + escape_doubling(s, '\'') + "'"@
}

/// How one source field value is rendered into an insert statement.
/// Non-finite reals become the literal NULL; list values become typed array
/// expressions, with real list items rendered as given.
pub open spec fn format_field_value_spec(v: SourceFieldValue) -> Seq<char> {
    match v {
        SourceFieldValue::Integer(i) => dec_rep_signed(i as int),
        SourceFieldValue::Integer64(i) => dec_rep_signed(i as int),
        SourceFieldValue::Real(r) => if r.finite {
            r.text@
        } else {
            "NULL"@
        },
        SourceFieldValue::Text(s) => sql_quoted_text(s@),
        SourceFieldValue::Date(d) => "'"@ + d@ + "'"@,
        SourceFieldValue::DateTime(d) => "'"@ + d@ + "'"@,
        SourceFieldValue::IntegerList(l) => "ARRAY["@ + join_with(
            l@.map_values(|i: i32| dec_rep_signed(i as int)),
            ", "@,
        ) + "]::integer[]"@,
        SourceFieldValue::Integer64List(l) => "ARRAY["@ + join_with(
            l@.map_values(|i: i64| dec_rep_signed(i as int)),
            ", "@,
        ) + "]::bigint[]"@,
        SourceFieldValue::RealList(l) => "ARRAY["@ + join_with(
            l@.map_values(|r: RealRepr| r.text@),
            ", "@,
        ) + "]::double precision[]"@,
        SourceFieldValue::TextList(l) => "ARRAY["@ + join_with(
            l@.map_values(|s: String| sql_quoted_text(s@)),
            ", "@,
        ) + "]::text[]"@,
    }
}

fn sql_quote_text(s: &str) -> (r: String)
    ensures
        r@ == sql_quoted_text(s@),
{
    let mut r = String::from_str("'");
    let escaped = escape_by_doubling(s, '\'');
    r.append(escaped.as_str());
    r.append("'");
    proof {
        assert(r@ =~= sql_quoted_text(s@));
    }
    r
}

fn format_i32_array(l: &Vec<i32>) -> (r: String)
    ensures
        r@ == "ARRAY["@ + join_with(l@.map_values(|i: i32| dec_rep_signed(i as int)), ", "@)
            + "]::integer[]"@,
{
    let mut items: Vec<String> = Vec::new();
    let mut i: usize = 0;
    while i < l.len()
        invariant
            i <= l@.len(),
            items@.len() == i,
            forall|j: int| 0 <= j < i ==> #[trigger] items@[j]@ == dec_rep_signed(l@[j] as int),
        decreases l@.len() - i,
    {
        items.push(i64_to_dec_string(l[i] as i64));
        i += 1;
    }
    proof {
        assert(items@.map_values(|s: String| s@) =~= l@.map_values(
            |i: i32| dec_rep_signed(i as int),
        ));
    }
    let mut r = String::from_str("ARRAY[");
    let joined = join_strings(&items, ", ");
    r.append(joined.as_str());
    r.append("]::integer[]");
    proof {
        assert(r@ =~= "ARRAY["@ + join_with(
            l@.map_values(|i: i32| dec_rep_signed(i as int)),
            ", "@,
        ) + "]::integer[]"@);
    }
    r
}

fn format_i64_array(l: &Vec<i64>) -> (r: String)
    ensures
        r@ == "ARRAY["@ + join_with(l@.map_values(|i: i64| dec_rep_signed(i as int)), ", "@)
            + "]::bigint[]"@,
{
    let mut items: Vec<String> = Vec::new();
    let mut i: usize = 0;
    while i < l.len()
        invariant
            i <= l@.len(),
            items@.len() == i,
            forall|j: int| 0 <= j < i ==> #[trigger] items@[j]@ == dec_rep_signed(l@[j] as int),
        decreases l@.len() - i,
    {
        items.push(i64_to_dec_string(l[i]));
        i += 1;
    }
    proof {
        assert(items@.map_values(|s: String| s@) =~= l@.map_values(
            |i: i64| dec_rep_signed(i as int),
        ));
    }
    let mut r = String::from_str("ARRAY[");
    let joined = join_strings(&items, ", ");
    r.append(joined.as_str());
    r.append("]::bigint[]");
    proof {
        assert(r@ =~= "ARRAY["@ + join_with(
            l@.map_values(|i: i64| dec_rep_signed(i as int)),
            ", "@,
        ) + "]::bigint[]"@);
    }
    r
}

fn format_real_array(l: &Vec<RealRepr>) -> (r: String)
    ensures
        r@ == "ARRAY["@ + join_with(l@.map_values(|r: RealRepr| r.text@), ", "@)
            + "]::double precision[]"@,
{
    let mut items: Vec<String> = Vec::new();
    let mut i: usize = 0;
    while i < l.len()
        invariant
            i <= l@.len(),
            items@.len() == i,
            forall|j: int| 0 <= j < i ==> #[trigger] items@[j]@ == l@[j].text@,
        decreases l@.len() - i,
    {
        items.push(l[i].text.clone());
        i += 1;
    }
    proof {
        assert(items@.map_values(|s: String| s@) =~= l@.map_values(|r: RealRepr| r.text@));
    }
    let mut r = String::from_str("ARRAY[");
    let joined = join_strings(&items, ", ");
    r.append(joined.as_str());
    r.append("]::double precision[]");
    proof {
        assert(r@ =~= "ARRAY["@ + join_with(l@.map_values(|r: RealRepr| r.text@), ", "@)
            + "]::double precision[]"@);
    }
    r
}

fn format_text_array(l: &Vec<String>) -> (r: String)
    ensures
        r@ == "ARRAY["@ + join_with(l@.map_values(|s: String| sql_quoted_text(s@)), ", "@)
            + "]::text[]"@,
{
    let mut items: Vec<String> = Vec::new();
    let mut i: usize = 0;
    while i < l.len()
        invariant
            i <= l@.len(),
            items@.len() == i,
            forall|j: int| 0 <= j < i ==> #[trigger] items@[j]@ == sql_quoted_text(l@[j]@),
        decreases l@.len() - i,
    {
        items.push(sql_quote_text(l[i].as_str()));
        i += 1;
    }
    proof {
        assert(items@.map_values(|s: String| s@) =~= l@.map_values(
            |s: String| sql_quoted_text(s@),
        ));
    }
    let mut r = String::from_str("ARRAY[");
    let joined = join_strings(&items, ", ");
    r.append(joined.as_str());
    r.append("]::text[]");
    proof {
        assert(r@ =~= "ARRAY["@ + join_with(l@.map_values(|s: String| sql_quoted_text(s@)), ", "@)
            + "]::text[]"@);
    }
    r
}

/// A double-quoted column name as it appears in an insert statement's
/// column list; the name is taken as given, not validated.
pub open spec fn quoted_name_text(name: Seq<char>) -> Seq<char> {
    "\""@ + name + "\""@
}

/// The column names of an insert statement: one quoted name per non-null
/// field, in field order; null fields are omitted.
pub open spec fn insert_columns(fields: Seq<(String, Option<SourceFieldValue>)>) -> Seq<Seq<char>>
    decreases fields.len(),
{
    if fields.len() == 0 {
        Seq::<Seq<char>>::empty()
    } else {
        insert_columns(fields.drop_last()) + (match fields.last().1 {
            Some(_) => seq![quoted_name_text(fields.last().0@)],
            None => Seq::<Seq<char>>::empty(),
        })
    }
}

/// The values of an insert statement: one rendered value per non-null
/// field, in field order.
pub open spec fn insert_values(fields: Seq<(String, Option<SourceFieldValue>)>) -> Seq<Seq<char>>
    decreases fields.len(),
{
    if fields.len() == 0 {
        Seq::<Seq<char>>::empty()
    } else {
        insert_values(fields.drop_last()) + (match fields.last().1 {
            Some(v) => seq![format_field_value_spec(v)],
            None => Seq::<Seq<char>>::empty(),
        })
    }
}

/// The geometry value of an insert statement: a well-known-text conversion
/// call tagged with the WGS84 SRID.
pub open spec fn geom_from_text_value(wkt: Seq<char>) -> Seq<char> {
    "ST_GeomFromText('"@ + wkt + "', 4326)"@
}

/// The complete insert statement for one source feature. The geometry
/// column and value are present exactly when the feature has a geometry.
pub open spec fn insert_statement_spec(
    fields: Seq<(String, Option<SourceFieldValue>)>,
    wkt: Option<Seq<char>>,
    schema: Seq<char>,
    table: Seq<char>,
    geom_col: Seq<char>,
) -> Seq<char> {
    let cols = insert_columns(fields) + (match wkt {
        Some(_) => seq![quoted_name_text(geom_col)],
        None => Seq::<Seq<char>>::empty(),
    });
    let vals = insert_values(fields) + (match wkt {
        Some(w) => seq![geom_from_text_value(w)],
        None => Seq::<Seq<char>>::empty(),
    });
    "INSERT INTO \""@ + schema + "\".\""@ + table + "\" ("@ + join_with(cols, ", "@)
        + ") VALUES ("@ + join_with(vals, ", "@) + ");"@
}

impl PostgisConnector {
    /// Renders one source field value for insertion. Non-finite reals are
    /// rewritten to the literal NULL, never emitted as NaN or Infinity
    /// tokens; text is single-quoted with embedded quotes doubled.
    pub fn format_field_value(value: &SourceFieldValue) -> (r: String)
        ensures
            r@ == format_field_value_spec(*value),
    {
        match value {
            SourceFieldValue::Integer(i) => i64_to_dec_string(*i as i64),
            SourceFieldValue::Integer64(i) => i64_to_dec_string(*i),
            SourceFieldValue::Real(r) => {
                if r.finite {
                    r.text.clone()
                } else {
                    String::from_str("NULL")
                }
            },
            SourceFieldValue::Text(s) => sql_quote_text(s.as_str()),
            SourceFieldValue::Date(d) => {
                let mut r = String::from_str("'");
                r.append(d.as_str());
                r.append("'");
                proof {
                    assert(r@ =~= format_field_value_spec(*value));
                }
                r
            },
            SourceFieldValue::DateTime(d) => {
                let mut r = String::from_str("'");
                r.append(d.as_str());
                r.append("'");
                proof {
                    assert(r@ =~= format_field_value_spec(*value));
                }
                r
            },
            SourceFieldValue::IntegerList(l) => format_i32_array(l),
            SourceFieldValue::Integer64List(l) => format_i64_array(l),
            SourceFieldValue::RealList(l) => format_real_array(l),
            SourceFieldValue::TextList(l) => format_text_array(l),
        }
    }

    /// Builds the sparse insert statement for one source feature: a quoted
    /// column and a rendered value per non-null field, and a geometry value
    /// when the feature has one, into the given schema and table.
    pub fn feature_to_insert_statement(
        fields: &Vec<(String, Option<SourceFieldValue>)>,
        geometry_wkt: Option<&str>,
        schema: &str,
        table_name: &str,
        geometry_column: Option<&str>,
    ) -> (r: String)
        ensures
            r@ == insert_statement_spec(
                fields@,
                match geometry_wkt {
                    Some(w) => Some(w@),
                    None => None,
                },
                schema@,
                table_name@,
                match geometry_column {
                    Some(g) => g@,
                    None => "geometry"@,
                },
            ),
    {
        let mut column_names: Vec<String> = Vec::new();
        let mut values: Vec<String> = Vec::new();
        let n = fields.len();
        let mut i: usize = 0;
        proof {
            assert(fields@.subrange(0, 0) =~= Seq::<(String, Option<SourceFieldValue>)>::empty());
        }
        while i < n
            invariant
                n == fields@.len(),
                i <= n,
                column_names@.map_values(|s: String| s@) == insert_columns(
                    fields@.subrange(0, i as int),
                ),
                values@.map_values(|s: String| s@) == insert_values(fields@.subrange(0, i as int)),
            decreases n - i,
        {
            let ghost pre_cols = column_names@.map_values(|s: String| s@);
            let ghost pre_vals = values@.map_values(|s: String| s@);
            let pair = &fields[i];
            if let Some(v) = &pair.1 {
                let mut cn = String::from_str("\"");
                cn.append(pair.0.as_str());
                cn.append("\"");
                proof {
                    assert(cn@ =~= quoted_name_text(pair.0@));
                }
                column_names.push(cn);
                values.push(Self::format_field_value(v));
            }
            proof {
                let sub = fields@.subrange(0, i + 1 as int);
                assert(sub.drop_last() =~= fields@.subrange(0, i as int));
                assert(sub.last() == fields@[i as int]);
                if fields@[i as int].1 is Some {
                    assert(column_names@.map_values(|s: String| s@) =~= pre_cols + seq![
                        quoted_name_text(fields@[i as int].0@),
                    ]);
                    assert(values@.map_values(|s: String| s@) =~= pre_vals + seq![
                        format_field_value_spec(fields@[i as int].1->0),
                    ]);
                } else {
                    assert(insert_columns(sub) =~= insert_columns(fields@.subrange(0, i as int)));
                    assert(insert_values(sub) =~= insert_values(fields@.subrange(0, i as int)));
                }
            }
            i += 1;
        }
        proof {
            assert(fields@.subrange(0, n as int) =~= fields@);
        }
        let ghost base_cols = column_names@.map_values(|s: String| s@);
        let ghost base_vals = values@.map_values(|s: String| s@);
        if let Some(wkt) = geometry_wkt {
            let geom_col = match geometry_column {
                Some(g) => g,
                None => "geometry",
            };
            let mut cn = String::from_str("\"");
            cn.append(geom_col);
            cn.append("\"");
            column_names.push(cn);
            let mut gv = String::from_str("ST_GeomFromText('");
            gv.append(wkt);
            gv.append("', 4326)");
            values.push(gv);
            proof {
                let gcol = match geometry_column {
                    Some(g) => g@,
                    None => "geometry"@,
                };
                assert(column_names@.map_values(|s: String| s@) =~= base_cols + seq![
                    quoted_name_text(gcol),
                ]);
                assert(values@.map_values(|s: String| s@) =~= base_vals + seq![
                    geom_from_text_value(wkt@),
                ]);
            }
        } else {
            proof {
                assert(column_names@.map_values(|s: String| s@) =~= base_cols + Seq::<
                    Seq<char>,
                >::empty());
                assert(values@.map_values(|s: String| s@) =~= base_vals + Seq::<
                    Seq<char>,
                >::empty());
            }
        }
        let cols_joined = join_strings(&column_names, ", ");
        let vals_joined = join_strings(&values, ", ");
        let mut sql = String::from_str("INSERT INTO \"");
        sql.append(schema);
        sql.append("\".\"");
        sql.append(table_name);
        sql.append("\" (");
        sql.append(cols_joined.as_str());
        sql.append(") VALUES (");
        sql.append(vals_joined.as_str());
        sql.append(");");
        proof {
            assert(sql@ =~= insert_statement_spec(
                fields@,
                match geometry_wkt {
                    Some(w) => Some(w@),
                    None => None,
                },
                schema@,
                table_name@,
                match geometry_column {
                    Some(g) => g@,
                    None => "geometry"@,
                },
            ));
        }
        sql
    }
}

impl PostgisConnector {
    /// Builds the create-if-absent statement for a namespace, validating
    /// and quoting the name first; an unsafe name is rejected before any
    /// SQL text exists.
    pub fn create_namespace_sql(name: &str) -> (r: Result<String, IdentifierError>)
        ensures
            r is Ok <==> identifier_ok(name@),
            r is Ok ==> r->Ok_0@ == "CREATE SCHEMA IF NOT EXISTS "@ + quoted_identifier(name@),
            r is Err ==> r->Err_0 == identifier_error_of(name@),
    {
        let quoted_name = match quote_identifier(name) {
            Ok(q) => q,
            Err(e) => {
                return Err(e);
            },
        };
        let mut q = String::from_str("CREATE SCHEMA IF NOT EXISTS ");
        q.append(quoted_name.as_str());
        Ok(q)
    }

    /// The information-schema query that lists the tables of a schema; the
    /// schema name is bound as $1.
    pub fn list_sources_query() -> (r: &'static str)
        ensures
            r@ == "SELECT table_name FROM information_schema.tables WHERE table_schema = $1"@,
    {
        "SELECT table_name FROM information_schema.tables WHERE table_schema = $1"
    }

    /// The information-schema probe for a table's geometry column, over the
    /// fixed candidate names geom, geometry, geoms and wkb_geometry; the
    /// table name is bound as $1 and the schema as $2.
    pub fn geometry_column_probe_query() -> (r: &'static str)
        ensures
            r@
                == "SELECT column_name FROM information_schema.columns WHERE table_name = $1 AND table_schema = $2 AND column_name IN ('geom', 'geometry', 'geoms', 'wkb_geometry')"@,
    {
        "SELECT column_name FROM information_schema.columns WHERE table_name = $1 AND table_schema = $2 AND column_name IN ('geom', 'geometry', 'geoms', 'wkb_geometry')"
    }
}

/// The parameterized vector-tile query for a validated layer source: the
/// tile envelope transformed into the table's SRID, intersecting features
/// clipped into tile-local coordinates at extent 4096 and buffer 256, and
/// aggregated into one encoded tile. Tile z/x/y and the output layer name
/// are bound as query parameters $1..$4, never interpolated; only the
/// already-quoted identifiers and the SRID appear in the text.
pub open spec fn tile_query_spec(
    namespace: Seq<char>,
    table: Seq<char>,
    geom: Seq<char>,
    srid: int,
) -> Seq<char> {
    "\n                WITH bounds AS (\n                    SELECT ST_Transform(ST_TileEnvelope($1, $2, $3), "@
        + dec_rep_signed(srid)
        + ") AS geom\n                ),\n                mvt_data AS (\n                    SELECT ST_AsMVTGeom(\n                        t."@
        + quoted_identifier(geom)
        + ",\n                        bounds.geom,\n                        4096,\n                        256,\n                        true\n                    ) AS geom\n                    FROM "@
        + quoted_identifier(namespace) + "."@ + quoted_identifier(table)
        + " t,\n                    bounds\n                    WHERE ST_Intersects(t."@
        + quoted_identifier(geom)
        + ", bounds.geom)\n                )\n                SELECT ST_AsMVT(mvt_data.*, $4) AS mvt\n                FROM mvt_data;\n                "@
}

/// Tile request determinism, for the part of a tile request this core
/// decides: the query text is a function of the layer source alone, so two
/// identical requests send byte-identical SQL (with z, x, y and the layer
/// name bound as identical parameters). What the backend returns for that
/// query is outside this core.
pub proof fn lemma_tile_query_deterministic(
    ns1: Seq<char>,
    t1: Seq<char>,
    g1: Seq<char>,
    srid1: int,
    ns2: Seq<char>,
    t2: Seq<char>,
    g2: Seq<char>,
    srid2: int,
)
    requires
        ns1 == ns2,
        t1 == t2,
        g1 == g2,
        srid1 == srid2,
    ensures
        tile_query_spec(ns1, t1, g1, srid1) == tile_query_spec(ns2, t2, g2, srid2),
{
}

impl PostgisConnector {
    /// Builds the vector-tile query for a layer source, validating and
    /// quoting the namespace, table and geometry-column identifiers before
    /// they reach the SQL text. The first invalid identifier's error is
    /// returned, in namespace, table, geometry-column order.
    pub fn generate_tile_query(source: &LayerSource) -> (r: Result<String, IdentifierError>)
        ensures
            source matches LayerSource::Database { namespace, name, geometry_field, srid } ==> {
                &&& (r is Ok <==> identifier_ok(namespace@) && identifier_ok(name@)
                    && identifier_ok(geometry_field@))
                &&& (r is Ok ==> r->Ok_0@ == tile_query_spec(
                    namespace@,
                    name@,
                    geometry_field@,
                    srid as int,
                ))
                &&& (!identifier_ok(namespace@) ==> r == Err::<String, IdentifierError>(
                    identifier_error_of(namespace@),
                ))
                &&& (identifier_ok(namespace@) && !identifier_ok(name@) ==> r == Err::<
                    String,
                    IdentifierError,
                >(identifier_error_of(name@)))
                &&& (identifier_ok(namespace@) && identifier_ok(name@) && !identifier_ok(
                    geometry_field@,
                ) ==> r == Err::<String, IdentifierError>(identifier_error_of(geometry_field@)))
            },
    {
        match source {
            LayerSource::Database { namespace, name, geometry_field, srid } => {
                let quoted_schema = match quote_identifier(namespace.as_str()) {
                    Ok(q) => q,
                    Err(e) => {
                        return Err(e);
                    },
                };
                let quoted_table = match quote_identifier(name.as_str()) {
                    Ok(q) => q,
                    Err(e) => {
                        return Err(e);
                    },
                };
                let geom_column = match quote_identifier(geometry_field.as_str()) {
                    Ok(q) => q,
                    Err(e) => {
                        return Err(e);
                    },
                };
                let srid_str = i32_to_dec_string(*srid);
                let mut q = String::from_str(
                    "\n                WITH bounds AS (\n                    SELECT ST_Transform(ST_TileEnvelope($1, $2, $3), ",
                );
                q.append(srid_str.as_str());
                q.append(
                    ") AS geom\n                ),\n                mvt_data AS (\n                    SELECT ST_AsMVTGeom(\n                        t.",
                );
                q.append(geom_column.as_str());
                q.append(
                    ",\n                        bounds.geom,\n                        4096,\n                        256,\n                        true\n                    ) AS geom\n                    FROM ",
                );
                q.append(quoted_schema.as_str());
                q.append(".");
                q.append(quoted_table.as_str());
                q.append(
                    " t,\n                    bounds\n                    WHERE ST_Intersects(t.",
                );
                q.append(geom_column.as_str());
                q.append(
                    ", bounds.geom)\n                )\n                SELECT ST_AsMVT(mvt_data.*, $4) AS mvt\n                FROM mvt_data;\n                ",
                );
                proof {
                    assert(q@ =~= tile_query_spec(namespace@, name@, geometry_field@, *srid as int));
                }
                Ok(q)
            },
        }
    }

    /// The geometry-type probe for a table: selects the distinct geometry
    /// type of the first row of the validated, quoted schema-qualified
    /// table.
    pub open spec fn geometry_type_query_spec(
        schema_name: Seq<char>,
        table: Seq<char>,
        geom_column: Seq<char>,
    ) -> Seq<char> {
        "SELECT DISTINCT ST_GeometryType("@ + quoted_identifier(geom_column)
            + ") \n            FROM "@ + quoted_identifier(schema_name) + "."@
            + quoted_identifier(table) + " \n            LIMIT 1"@
    }

    /// Builds the geometry-type probe query against this connector's
    /// schema, validating and quoting each identifier. The first invalid
    /// identifier's error is returned, in schema, table, geometry-column
    /// order.
    pub fn geometry_type_query(&self, table: &str, geom_column: &str) -> (r: Result<
        String,
        IdentifierError,
    >)
        ensures
            r is Ok <==> identifier_ok(self.schema@) && identifier_ok(table@) && identifier_ok(
                geom_column@,
            ),
            r is Ok ==> r->Ok_0@ == Self::geometry_type_query_spec(
                self.schema@,
                table@,
                geom_column@,
            ),
            !identifier_ok(self.schema@) ==> r == Err::<String, IdentifierError>(
                identifier_error_of(self.schema@),
            ),
            identifier_ok(self.schema@) && !identifier_ok(table@) ==> r == Err::<
                String,
                IdentifierError,
            >(identifier_error_of(table@)),
            identifier_ok(self.schema@) && identifier_ok(table@) && !identifier_ok(geom_column@)
                ==> r == Err::<String, IdentifierError>(identifier_error_of(geom_column@)),
    {
        let quoted_schema = match quote_identifier(self.schema.as_str()) {
            Ok(q) => q,
            Err(e) => {
                return Err(e);
            },
        };
        let quoted_table = match quote_identifier(table) {
            Ok(q) => q,
            Err(e) => {
                return Err(e);
            },
        };
        let quoted_geom_column = match quote_identifier(geom_column) {
            Ok(q) => q,
            Err(e) => {
                return Err(e);
            },
        };
        let mut q = String::from_str("SELECT DISTINCT ST_GeometryType(");
        q.append(quoted_geom_column.as_str());
        q.append(") \n            FROM ");
        q.append(quoted_schema.as_str());
        q.append(".");
        q.append(quoted_table.as_str());
        q.append(" \n            LIMIT 1");
        proof {
            assert(q@ =~= Self::geometry_type_query_spec(self.schema@, table@, geom_column@));
        }
        Ok(q)
    }
}

} // verus!
