//! Abstract layer schemas: the raw shape a native dataset reports and the
//! mapped shape used for table creation. Field order matches the source
//! layer's column order, which keeps field extraction and type mapping
//! aligned.
use vstd::prelude::*;

verus! {

/// A field definition as the native library reports it, before
/// backend-specific type mapping. Width and precision are the raw reported
/// numbers; zero means the source declared none.
#[derive(Clone, Debug)]
pub struct RawFieldDefinition {
    pub name: String,
    pub gdal_field_type: String,
    pub width: i32,
    pub precision: i32,
    pub is_nullable: bool,
}

/// A layer schema as the native library reports it, before type mapping.
#[derive(Clone, Debug)]
pub struct RawLayerSchema {
    pub layer_name: String,
    pub geometry_type: String,
    pub srid: Option<i32>,
    pub fields: Vec<RawFieldDefinition>,
    pub feature_count: i64,
}

/// A field definition after backend type mapping: the type is the backend's
/// SQL type name, and width or precision of zero has been normalized to
/// absent.
#[derive(Clone, Debug, PartialEq)]
pub struct FieldDefinition {
    pub name: String,
    pub field_type: String,
    pub width: Option<i32>,
    pub precision: Option<i32>,
    pub is_nullable: bool,
}

/// The complete mapped schema of a layer, ready for table creation.
#[derive(Clone, Debug)]
pub struct LayerSchema {
    pub layer_name: String,
    pub geometry_type: String,
    pub srid: Option<i32>,
    pub fields: Vec<FieldDefinition>,
    pub feature_count: i64,
}

/// Assembles the mapped schema from a raw schema and the backend type name
/// chosen for each field, in field order: names, nullability, field order
/// and the layer header carry over, and width or precision of zero is
/// normalized to absent.
pub fn assemble_layer_schema(raw: &RawLayerSchema, mapped_types: &Vec<String>) -> (r: LayerSchema)
    requires
        mapped_types@.len() == raw.fields@.len(),
    ensures
        r.layer_name@ == raw.layer_name@,
        r.geometry_type@ == raw.geometry_type@,
        r.srid == raw.srid,
        r.feature_count == raw.feature_count,
        r.fields@.len() == raw.fields@.len(),
        forall|i: int|
            0 <= i < raw.fields@.len() ==> {
                let rf = raw.fields@[i];
                let mf = #[trigger] r.fields@[i];
                mf.name@ == rf.name@ && mf.field_type@ == mapped_types@[i]@ && mf.width == (
                if rf.width > 0 {
                    Some(rf.width)
                } else {
                    None::<i32>
                }) && mf.precision == (if rf.precision > 0 {
                    Some(rf.precision)
                } else {
                    None::<i32>
                }) && mf.is_nullable == rf.is_nullable
            },
{
    let n = raw.fields.len();
    let mut mapped: Vec<FieldDefinition> = Vec::new();
    let mut i: usize = 0;
    while i < n
        invariant
            n == raw.fields@.len(),
            mapped_types@.len() == raw.fields@.len(),
            i <= n,
            mapped@.len() == i,
            forall|j: int|
                0 <= j < i ==> {
                    let rf = raw.fields@[j];
                    let mf = #[trigger] mapped@[j];
                    mf.name@ == rf.name@ && mf.field_type@ == mapped_types@[j]@ && mf.width == (
                    if rf.width > 0 {
                        Some(rf.width)
                    } else {
                        None::<i32>
                    }) && mf.precision == (if rf.precision > 0 {
                        Some(rf.precision)
                    } else {
                        None::<i32>
                    }) && mf.is_nullable == rf.is_nullable
                },
        decreases n - i,
    {
        let rf = &raw.fields[i];
        let field_def = FieldDefinition {
            name: rf.name.clone(),
            field_type: mapped_types[i].clone(),
            width: if rf.width > 0 {
                Some(rf.width)
            } else {
                None
            },
            precision: if rf.precision > 0 {
                Some(rf.precision)
            } else {
                None
            },
            is_nullable: rf.is_nullable,
        };
        mapped.push(field_def);
        i += 1;
    }
    LayerSchema {
        layer_name: raw.layer_name.clone(),
        geometry_type: raw.geometry_type.clone(),
        srid: raw.srid,
        fields: mapped,
        feature_count: raw.feature_count,
    }
}

} // verus!
