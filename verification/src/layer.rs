//! Layer bookkeeping vocabulary: the spatial reference systems a stored
//! layer may declare and the lifecycle status of a layer. The summary record
//! that pairs these with backend-generated identifiers and timestamps lives
//! with the unverified service wiring.
use vstd::prelude::*;
use vstd::string::StringExecFns;
use crate::strutil::str_eq;

verus! {

/// A supported spatial reference system, by EPSG code.
#[derive(Clone, Copy, Debug, PartialEq, Eq, Structural)]
pub enum Srid {
    Epsg3857,
    Epsg4326,
}

impl Srid {
    /// The numeric EPSG code.
    pub fn code(&self) -> (r: u32)
        ensures
            *self is Epsg3857 ==> r == 3857,
            *self is Epsg4326 ==> r == 4326,
    {
        match self {
            Srid::Epsg3857 => 3857,
            Srid::Epsg4326 => 4326,
        }
    }

    /// The EPSG code rendered as the wire string.
    pub fn code_str(&self) -> (r: String)
        ensures
            *self is Epsg3857 ==> r@ == "3857"@,
            *self is Epsg4326 ==> r@ == "4326"@,
    {
        match self {
            Srid::Epsg3857 => String::from_str("3857"),
            Srid::Epsg4326 => String::from_str("4326"),
        }
    }

    /// Parses the wire string back into a code, the inverse of `code_str`.
    pub fn from_code_str(s: &str) -> (r: Option<Srid>)
        ensures
            s@ == "3857"@ ==> r == Some(Srid::Epsg3857),
            s@ == "4326"@ ==> r == Some(Srid::Epsg4326),
            s@ != "3857"@ && s@ != "4326"@ ==> r is None,
    {
        proof {
            lemma_srid_codes_distinct();
        }
        if str_eq(s, "3857") {
            Some(Srid::Epsg3857)
        } else if str_eq(s, "4326") {
            Some(Srid::Epsg4326)
        } else {
            None
        }
    }
}

/// The lifecycle status of a stored layer.
#[derive(Clone, Copy, Debug, PartialEq, Eq, Structural)]
pub enum LayerStatus {
    Uploading,
    Processing,
    Ready,
    Error,
    Cancelled,
    Failed,
}

impl LayerStatus {
    /// The status name as written on the wire.
    pub fn name(&self) -> (r: String)
        ensures
            *self is Uploading ==> r@ == "Uploading"@,
            *self is Processing ==> r@ == "Processing"@,
            *self is Ready ==> r@ == "Ready"@,
            *self is Error ==> r@ == "Error"@,
            *self is Cancelled ==> r@ == "Cancelled"@,
            *self is Failed ==> r@ == "Failed"@,
    {
        match self {
            LayerStatus::Uploading => String::from_str("Uploading"),
            LayerStatus::Processing => String::from_str("Processing"),
            LayerStatus::Ready => String::from_str("Ready"),
            LayerStatus::Error => String::from_str("Error"),
            LayerStatus::Cancelled => String::from_str("Cancelled"),
            LayerStatus::Failed => String::from_str("Failed"),
        }
    }
}

/// The two rendered EPSG codes are distinct, so a rendered code always
/// parses back to the system it came from.
pub proof fn lemma_srid_codes_distinct()
    ensures
        "3857"@ != "4326"@,
{
    reveal_strlit("3857");
    reveal_strlit("4326");
    assert("3857"@[0] == '3' && "4326"@[0] == '4');
}

} // verus!
