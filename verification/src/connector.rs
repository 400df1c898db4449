//! Backend-agnostic connector vocabulary: the abstract geometry types, the
//! location of a stored layer, and the capability table of the connector
//! kinds. The capability-polymorphic union that owns a live backend is
//! asynchronous and lives outside the verified core; its capability checks
//! delegate to [`ConnectorKind`] so that the narrowing rules are pinned here.
use vstd::prelude::*;

verus! {

/// The closed set of abstract vector geometry types.
#[derive(Clone, Copy, Debug, PartialEq, Eq, Structural)]
pub enum GeometryType {
    Point,
    LineString,
    Polygon,
    MultiPoint,
    MultiLineString,
    MultiPolygon,
    GeometryCollection,
}

/// Identifies a stored layer inside a namespace.
#[derive(Clone, Debug)]
pub enum LayerLocation {
    Database { namespace: String, name: String },
}

/// Identifies a database-backed layer for tile queries: namespace, table,
/// geometry column and the table's spatial reference.
#[derive(Clone, Debug)]
pub enum LayerSource {
    Database { namespace: String, name: String, geometry_field: String, srid: i32 },
}

/// The capability kind of a backend: vector-only, raster-only, or both.
#[derive(Clone, Copy, Debug, PartialEq, Eq, Structural)]
pub enum ConnectorKind {
    Vector,
    Raster,
    Hybrid,
}

/// A vector view of the backend exists: for the vector and hybrid kinds.
pub open spec fn supports_vector(k: ConnectorKind) -> bool {
    k is Vector || k is Hybrid
}

/// A raster view of the backend exists: for the raster and hybrid kinds.
pub open spec fn supports_raster(k: ConnectorKind) -> bool {
    k is Raster || k is Hybrid
}

impl ConnectorKind {
    /// A vector view of the backend exists: true for the vector and hybrid
    /// kinds.
    pub fn is_vector(&self) -> (r: bool)
        ensures
            r <==> supports_vector(*self),
    {
        match self {
            ConnectorKind::Vector => true,
            ConnectorKind::Hybrid => true,
            ConnectorKind::Raster => false,
        }
    }

    /// A raster view of the backend exists: true for the raster and hybrid
    /// kinds.
    pub fn is_raster(&self) -> (r: bool)
        ensures
            r <==> supports_raster(*self),
    {
        match self {
            ConnectorKind::Raster => true,
            ConnectorKind::Hybrid => true,
            ConnectorKind::Vector => false,
        }
    }

    /// A hybrid view exists only for the hybrid kind.
    pub fn is_hybrid(&self) -> (r: bool)
        ensures
            r <==> *self is Hybrid,
    {
        match self {
            ConnectorKind::Hybrid => true,
            _ => false,
        }
    }
}

/// A hybrid backend is visible through both the vector and the raster view;
/// a dedicated backend is visible through exactly its own view.
pub proof fn lemma_hybrid_visible_through_both_views()
    ensures
        forall|k: ConnectorKind| k is Hybrid ==> supports_vector(k) && supports_raster(k),
        forall|k: ConnectorKind|
            !(k is Hybrid) ==> !(supports_vector(k) && supports_raster(k)),
{
}

} // verus!
