//! The normalized record model: backend-agnostic field values, the unique-key
//! field map, and the conversion of a raw source feature into a normalized
//! record. A raw feature carries what the native reader reported, already
//! reduced to plain values; a feature with no geometry is a conversion error,
//! never a record with empty geometry.
use vstd::prelude::*;
use vstd::string::StringExecFns;
use crate::strutil::dec_rep_signed;
use crate::strutil::i32_to_dec_string;
use crate::strutil::i64_to_dec_string;
use crate::strutil::join_strings;
use crate::strutil::join_with;
use crate::strutil::str_eq;

verus! {

/// A real number as rendered by the unverified boundary: its decimal text and
/// whether the value was finite. Infinities and NaN are never finite.
#[derive(Clone, Debug, PartialEq)]
pub struct RealRepr {
    pub text: String,
    pub finite: bool,
}

/// A field value as the native source reports it, reduced to plain values:
/// dates and datetimes arrive already rendered as ISO-8601 text.
#[derive(Clone, Debug, PartialEq)]
pub enum SourceFieldValue {
    Integer(i32),
    Integer64(i64),
    Real(RealRepr),
    Text(String),
    Date(String),
    DateTime(String),
    IntegerList(Vec<i32>),
    Integer64List(Vec<i64>),
    RealList(Vec<RealRepr>),
    TextList(Vec<String>),
}

/// A normalized, backend-agnostic field value.
#[derive(Clone, Debug, PartialEq)]
pub enum FieldValue {
    Text(String),
    Integer(i64),
    Real(RealRepr),
    Boolean(bool),
    Date(String),
    DateTime(String),
    Binary(Vec<u8>),
    Null,
}

/// The debug-style text a 32-bit integer list is flattened to.
pub open spec fn int32_list_text(l: Seq<i32>) -> Seq<char> {
    "["@ + join_with(l.map_values(|i: i32| dec_rep_signed(i as int)), ", "@) + "]"@
}

/// The debug-style text a 64-bit integer list is flattened to.
pub open spec fn int64_list_text(l: Seq<i64>) -> Seq<char> {
    "["@ + join_with(l.map_values(|i: i64| dec_rep_signed(i as int)), ", "@) + "]"@
}

/// The debug-style text a real list is flattened to.
pub open spec fn real_list_text(l: Seq<RealRepr>) -> Seq<char> {
    "["@ + join_with(l.map_values(|r: RealRepr| r.text@), ", "@) + "]"@
}

/// The comma-joined text a string list is flattened to.
pub open spec fn str_list_joined(l: Seq<String>) -> Seq<char> {
    join_with(l.map_values(|s: String| s@), ","@)
}

fn render_i32_list(l: &Vec<i32>) -> (r: String)
    ensures
        r@ == int32_list_text(l@),
{
    let mut items: Vec<String> = Vec::new();
    let mut i: usize = 0;
    while i < l.len()
        invariant
            i <= l@.len(),
            items@.len() == i,
            forall|j: int| 0 <= j < i ==> #[trigger] items@[j]@ == dec_rep_signed(l@[j] as int),
        decreases l@.len() - i,
    {
        items.push(i32_to_dec_string(l[i]));
        i += 1;
    }
    proof {
        assert(items@.map_values(|s: String| s@) =~= l@.map_values(
            |i: i32| dec_rep_signed(i as int),
        ));
    }
    let mut r = String::from_str("[");
    let joined = join_strings(&items, ", ");
    r.append(joined.as_str());
    r.append("]");
    proof {
        assert(r@ =~= int32_list_text(l@));
    }
    r
}

fn render_i64_list(l: &Vec<i64>) -> (r: String)
    ensures
        r@ == int64_list_text(l@),
{
    let mut items: Vec<String> = Vec::new();
    let mut i: usize = 0;
    while i < l.len()
        invariant
            i <= l@.len(),
            items@.len() == i,
            forall|j: int| 0 <= j < i ==> #[trigger] items@[j]@ == dec_rep_signed(l@[j] as int),
        decreases l@.len() - i,
    {
        items.push(i64_to_dec_string(l[i]));
        i += 1;
    }
    proof {
        assert(items@.map_values(|s: String| s@) =~= l@.map_values(
            |i: i64| dec_rep_signed(i as int),
        ));
    }
    let mut r = String::from_str("[");
    let joined = join_strings(&items, ", ");
    r.append(joined.as_str());
    r.append("]");
    proof {
        assert(r@ =~= int64_list_text(l@));
    }
    r
}

fn render_real_list(l: &Vec<RealRepr>) -> (r: String)
    ensures
        r@ == real_list_text(l@),
{
    let mut items: Vec<String> = Vec::new();
    let mut i: usize = 0;
    while i < l.len()
        invariant
            i <= l@.len(),
            items@.len() == i,
            forall|j: int| 0 <= j < i ==> #[trigger] items@[j]@ == l@[j].text@,
        decreases l@.len() - i,
    {
        items.push(l[i].text.clone());
        i += 1;
    }
    proof {
        assert(items@.map_values(|s: String| s@) =~= l@.map_values(|r: RealRepr| r.text@));
    }
    let mut r = String::from_str("[");
    let joined = join_strings(&items, ", ");
    r.append(joined.as_str());
    r.append("]");
    proof {
        assert(r@ =~= real_list_text(l@));
    }
    r
}

fn render_str_list(l: &Vec<String>) -> (r: String)
    ensures
        r@ == str_list_joined(l@),
{
    join_strings(l, ",")
}

/// The mathematical model of a normalized field value: strings by their
/// character sequences.
pub enum FieldValueModel {
    Text(Seq<char>),
    Integer(int),
    Real(Seq<char>, bool),
    Boolean(bool),
    Date(Seq<char>),
    DateTime(Seq<char>),
    Binary(Seq<u8>),
    Null,
}

/// A normalized field value up to string views.
pub open spec fn field_value_view(v: FieldValue) -> FieldValueModel {
    match v {
        FieldValue::Text(s) => FieldValueModel::Text(s@),
        FieldValue::Integer(i) => FieldValueModel::Integer(i as int),
        FieldValue::Real(r) => FieldValueModel::Real(r.text@, r.finite),
        FieldValue::Boolean(b) => FieldValueModel::Boolean(b),
        FieldValue::Date(d) => FieldValueModel::Date(d@),
        FieldValue::DateTime(d) => FieldValueModel::DateTime(d@),
        FieldValue::Binary(b) => FieldValueModel::Binary(b@),
        FieldValue::Null => FieldValueModel::Null,
    }
}

/// How one source field value normalizes: scalars carry over, lists flatten
/// to a single text rendering.
pub open spec fn convert_value_model(v: SourceFieldValue) -> FieldValueModel {
    match v {
        SourceFieldValue::Integer(i) => FieldValueModel::Integer(i as int),
        SourceFieldValue::Integer64(i) => FieldValueModel::Integer(i as int),
        SourceFieldValue::Real(r) => FieldValueModel::Real(r.text@, r.finite),
        SourceFieldValue::Text(s) => FieldValueModel::Text(s@),
        SourceFieldValue::Date(d) => FieldValueModel::Date(d@),
        SourceFieldValue::DateTime(d) => FieldValueModel::DateTime(d@),
        SourceFieldValue::IntegerList(l) => FieldValueModel::Text(int32_list_text(l@)),
        SourceFieldValue::Integer64List(l) => FieldValueModel::Text(int64_list_text(l@)),
        SourceFieldValue::RealList(l) => FieldValueModel::Text(real_list_text(l@)),
        SourceFieldValue::TextList(l) => FieldValueModel::Text(str_list_joined(l@)),
    }
}

/// Normalizes one source field value.
pub fn convert_value(v: SourceFieldValue) -> (r: FieldValue)
    ensures
        field_value_view(r) == convert_value_model(v),
{
    match v {
        SourceFieldValue::Integer(i) => FieldValue::Integer(i as i64),
        SourceFieldValue::Integer64(i) => FieldValue::Integer(i),
        SourceFieldValue::Real(r) => FieldValue::Real(r),
        SourceFieldValue::Text(s) => FieldValue::Text(s),
        SourceFieldValue::Date(d) => FieldValue::Date(d),
        SourceFieldValue::DateTime(d) => FieldValue::DateTime(d),
        SourceFieldValue::IntegerList(l) => FieldValue::Text(render_i32_list(&l)),
        SourceFieldValue::Integer64List(l) => FieldValue::Text(render_i64_list(&l)),
        SourceFieldValue::RealList(l) => FieldValue::Text(render_real_list(&l)),
        SourceFieldValue::TextList(l) => FieldValue::Text(render_str_list(&l)),
    }
}

/// The attribute fields of a normalized record: a name-to-value mapping with
/// unique keys and order-irrelevant lookup. A later insert for an existing
/// name replaces the earlier value, as a hash map would.
#[derive(Clone, Debug)]
pub struct FieldMap {
    entries: Vec<(String, FieldValue)>,
}

/// Pairwise-distinct key views: the well-formedness invariant of `FieldMap`.
pub open spec fn unique_keys(s: Seq<(String, FieldValue)>) -> bool {
    forall|i: int, j: int| 0 <= i < j < s.len() ==> (#[trigger] s[i]).0@ != (#[trigger] s[j]).0@
}

/// The mapping an entry sequence denotes: later entries win.
pub open spec fn map_of_entries(s: Seq<(String, FieldValue)>) -> Map<Seq<char>, FieldValueModel>
    decreases s.len(),
{
    if s.len() == 0 {
        Map::<Seq<char>, FieldValueModel>::empty()
    } else {
        map_of_entries(s.drop_last()).insert(s.last().0@, field_value_view(s.last().1))
    }
}

/// Every key of the mapping is the key of some entry, and the entry whose key
/// does not recur later gives that key's value.
pub proof fn lemma_map_of_entries_props(s: Seq<(String, FieldValue)>)
    ensures
        forall|k: Seq<char>| #[trigger]
            map_of_entries(s).contains_key(k) ==> exists|i: int|
                0 <= i < s.len() && (#[trigger] s[i]).0@ == k,
        forall|i: int|
            0 <= i < s.len() && (forall|j: int| i < j < s.len() ==> (#[trigger] s[j]).0@ != s[i].0@)
                ==> map_of_entries(s).contains_key((#[trigger] s[i]).0@) && map_of_entries(s)[s[i].0@]
                == field_value_view(s[i].1),
    decreases s.len(),
{
    if s.len() > 0 {
        let pre = s.drop_last();
        lemma_map_of_entries_props(pre);
        assert forall|k: Seq<char>| #[trigger] map_of_entries(s).contains_key(k) implies exists|i: int|
            0 <= i < s.len() && (#[trigger] s[i]).0@ == k by {
            if k == s.last().0@ {
                assert(0 <= s.len() - 1 < s.len() && s[s.len() - 1].0@ == k);
            } else {
                assert(map_of_entries(pre).contains_key(k));
                let i = choose|i: int| 0 <= i < pre.len() && (#[trigger] pre[i]).0@ == k;
                assert(s[i].0@ == k);
            }
        }
        assert forall|i: int|
            0 <= i < s.len() && (forall|j: int|
                i < j < s.len() ==> (#[trigger] s[j]).0@ != s[i].0@) implies map_of_entries(
            s,
        ).contains_key((#[trigger] s[i]).0@) && map_of_entries(s)[s[i].0@] == field_value_view(
            s[i].1,
        ) by {
            if i == s.len() - 1 {
                assert(map_of_entries(s)[s.last().0@] == field_value_view(s.last().1));
            } else {
                assert(pre[i] == s[i]);
                assert(forall|j: int| i < j < pre.len() ==> (#[trigger] pre[j]).0@ != pre[i].0@);
                assert(map_of_entries(pre).contains_key(pre[i].0@) && map_of_entries(pre)[pre[i].0@]
                    == field_value_view(pre[i].1));
                assert(s[i].0@ != s.last().0@);
            }
        }
    }
}

impl View for FieldMap {
    type V = Map<Seq<char>, FieldValueModel>;

    closed spec fn view(&self) -> Map<Seq<char>, FieldValueModel> {
        map_of_entries(self.entries@)
    }
}

impl FieldMap {
    /// The entry sequence, exposed for length and iteration contracts.
    pub closed spec fn entries_seq(&self) -> Seq<(String, FieldValue)> {
        self.entries@
    }

    /// Well-formedness: entry keys are pairwise distinct.
    pub closed spec fn wf(&self) -> bool {
        unique_keys(self.entries@)
    }

    /// An empty field map.
    pub fn new() -> (r: FieldMap)
        ensures
            r.wf(),
            r@ == Map::<Seq<char>, FieldValueModel>::empty(),
            r.entries_seq().len() == 0,
    {
        FieldMap { entries: Vec::new() }
    }

    /// The number of fields.
    pub fn len(&self) -> (r: usize)
        ensures
            r == self.entries_seq().len(),
    {
        self.entries.len()
    }

    /// The entry at an index, in insertion order.
    pub fn entry_at(&self, i: usize) -> (r: &(String, FieldValue))
        requires
            i < self.entries_seq().len(),
        ensures
            *r == self.entries_seq()[i as int],
    {
        &self.entries[i]
    }

    /// Inserts a field, replacing the value of an existing name.
    pub fn insert(&mut self, name: String, value: FieldValue)
        requires
            old(self).wf(),
        ensures
            final(self).wf(),
            final(self)@ == old(self)@.insert(name@, field_value_view(value)),
    {
        let n = self.entries.len();
        let mut i: usize = 0;
        while i < n
            invariant
                self.entries@ == old(self).entries@,
                n == self.entries@.len(),
                i <= n,
                self.wf(),
                forall|j: int| 0 <= j < i ==> (#[trigger] self.entries@[j]).0@ != name@,
            decreases n - i,
        {
            if str_eq(self.entries[i].0.as_str(), name.as_str()) {
                let ghost pre = self.entries@;
                self.entries[i] = (name, value);
                proof {
                    lemma_replace_entry(pre, i as int, self.entries@[i as int]);
                }
                return ;
            }
            i += 1;
        }
        let ghost pre = self.entries@;
        self.entries.push((name, value));
        proof {
            assert(self.entries@.drop_last() =~= pre);
        }
    }

    /// Looks a field up by name.
    pub fn get(&self, name: &str) -> (r: Option<&FieldValue>)
        requires
            self.wf(),
        ensures
            r is Some <==> self@.contains_key(name@),
            r is Some ==> field_value_view(*r->0) == self@[name@],
    {
        proof {
            lemma_map_of_entries_props(self.entries@);
        }
        let n = self.entries.len();
        let mut i: usize = 0;
        while i < n
            invariant
                n == self.entries@.len(),
                i <= n,
                self.wf(),
                forall|j: int| 0 <= j < i ==> (#[trigger] self.entries@[j]).0@ != name@,
        decreases n - i,
        {
            if str_eq(self.entries[i].0.as_str(), name) {
                proof {
                    lemma_map_of_entries_props(self.entries@);
                    assert(forall|j: int|
                        i < j < self.entries@.len() ==> (#[trigger] self.entries@[j]).0@
                            != self.entries@[i as int].0@);
                }
                return Some(&self.entries[i].1);
            }
            i += 1;
        }
        proof {
            if self@.contains_key(name@) {
                let w = choose|w: int|
                    0 <= w < self.entries@.len() && (#[trigger] self.entries@[w]).0@ == name@;
                assert(false);
            }
        }
        None
    }
}

/// Replacing the entry that holds a key denotes the same mapping as inserting
/// the new value for that key.
proof fn lemma_replace_entry(s: Seq<(String, FieldValue)>, i: int, p: (String, FieldValue))
    requires
        unique_keys(s),
        0 <= i < s.len(),
        p.0@ == s[i].0@,
    ensures
        unique_keys(s.update(i, p)),
        map_of_entries(s.update(i, p)) == map_of_entries(s).insert(p.0@, field_value_view(p.1)),
    decreases s.len(),
{
    let s2 = s.update(i, p);
    assert(unique_keys(s2));
    if i == s.len() - 1 {
        assert(s2.drop_last() =~= s.drop_last());
        assert(map_of_entries(s).insert(p.0@, field_value_view(p.1)) =~= map_of_entries(
            s.drop_last(),
        ).insert(p.0@, field_value_view(p.1)));
    } else {
        let pre = s.drop_last();
        assert(unique_keys(pre));
        assert(s2.drop_last() =~= pre.update(i, p));
        lemma_replace_entry(pre, i, p);
        assert(s2.last() == s.last());
        assert(p.0@ != s.last().0@);
        assert(map_of_entries(pre).insert(p.0@, field_value_view(p.1)).insert(
            s.last().0@,
            field_value_view(s.last().1),
        ) =~= map_of_entries(pre).insert(s.last().0@, field_value_view(s.last().1)).insert(
            p.0@,
            field_value_view(p.1),
        ));
    }
}

/// A normalized geospatial feature, ready for backend insertion: a
/// well-known-binary geometry, an optional spatial reference, and the
/// attribute fields.
#[derive(Clone, Debug)]
pub struct Feature {
    pub geometry_wkb: Vec<u8>,
    pub srid: Option<i32>,
    pub fields: FieldMap,
}

impl Feature {
    /// Well-formedness: the field map keeps its unique-key invariant.
    pub open spec fn wf(&self) -> bool {
        self.fields.wf()
    }
}

/// A source feature as the native reader reports it, reduced to plain
/// values: the geometry's well-known-binary encoding when the feature has a
/// geometry, and each field's name with its value, `None` for a null field.
#[derive(Clone, Debug)]
pub struct RawFeature {
    pub geometry_wkb: Option<Vec<u8>>,
    pub fields: Vec<(String, Option<SourceFieldValue>)>,
}

/// Why converting one source feature failed.
#[derive(Clone, Copy, Debug, PartialEq, Eq, Structural)]
pub enum ConversionError {
    /// The source feature had no geometry.
    MissingGeometry,
}

impl ConversionError {
    /// A human-readable cause, as surfaced to callers.
    pub fn message(&self) -> (r: String)
        ensures
            r@ == "Feature has no geometry"@,
    {
        match self {
            ConversionError::MissingGeometry => String::from_str("Feature has no geometry"),
        }
    }
}

/// The value a named source field contributes to the record: its normalized
/// value, or `Null` for a null field.
pub open spec fn value_or_null_model(v: Option<SourceFieldValue>) -> FieldValueModel {
    match v {
        Some(x) => convert_value_model(x),
        None => FieldValueModel::Null,
    }
}

/// The field mapping of a converted feature: every source field by name,
/// a later duplicate name replacing the earlier value.
pub open spec fn fields_map_spec(fields: Seq<(String, Option<SourceFieldValue>)>) -> Map<
    Seq<char>,
    FieldValueModel,
>
    decreases fields.len(),
{
    if fields.len() == 0 {
        Map::<Seq<char>, FieldValueModel>::empty()
    } else {
        fields_map_spec(fields.drop_last()).insert(
            fields.last().0@,
            value_or_null_model(fields.last().1),
        )
    }
}

/// The mathematical model of a normalized record.
pub struct RecordModel {
    pub geometry_wkb: Seq<u8>,
    pub srid: Option<i32>,
    pub fields: Map<Seq<char>, FieldValueModel>,
}

/// The model a normalized feature denotes.
pub open spec fn feature_model(f: Feature) -> RecordModel {
    RecordModel { geometry_wkb: f.geometry_wkb@, srid: f.srid, fields: f.fields@ }
}

/// A raw feature converts successfully exactly when it has a geometry.
pub open spec fn raw_convertible(raw: RawFeature) -> bool {
    raw.geometry_wkb is Some
}

/// The record a convertible raw feature normalizes to.
pub open spec fn raw_record_model(raw: RawFeature, srid: Option<i32>) -> RecordModel
    recommends
        raw_convertible(raw),
{
    RecordModel {
        geometry_wkb: (raw.geometry_wkb->0)@,
        srid,
        fields: fields_map_spec(raw.fields@),
    }
}

/// Converts one source feature into a normalized record. A feature with no
/// geometry is an error for that item alone; every field carries over by
/// name, null fields as explicit `Null` values.
pub fn convert_feature(raw: RawFeature, srid: Option<i32>) -> (r: Result<Feature, ConversionError>)
    ensures
        r is Ok <==> raw_convertible(raw),
        r is Ok ==> (r->Ok_0).wf() && feature_model(r->Ok_0) == raw_record_model(raw, srid),
        r is Err ==> r->Err_0 is MissingGeometry,
{
    let RawFeature { geometry_wkb, fields } = raw;
    let geometry_wkb = match geometry_wkb {
        Some(g) => g,
        None => {
            return Err(ConversionError::MissingGeometry);
        },
    };
    let ghost orig = fields@;
    let mut fields = fields;
    let total = fields.len();
    proof {
        assert(orig.len() == total);
    }
    let mut fm = FieldMap::new();
    let mut done: usize = 0;
    proof {
        assert(fields@ =~= orig.subrange(0, orig.len() as int));
        assert(orig.subrange(0, 0) =~= Seq::<(String, Option<SourceFieldValue>)>::empty());
    }
    while fields.len() > 0
        invariant
            fm.wf(),
            orig.len() <= usize::MAX,
            done + fields@.len() == orig.len(),
            fields@ =~= orig.subrange(done as int, orig.len() as int),
            fm@ == fields_map_spec(orig.subrange(0, done as int)),
        decreases fields@.len(),
    {
        let ghost pre_done = done as int;
        let ghost pair = fields@[0];
        proof {
            assert(pair == orig[pre_done]);
        }
        let (name, value) = fields.remove(0);
        proof {
            assert(name == pair.0 && value == pair.1);
        }
        let fv = match value {
            Some(v) => convert_value(v),
            None => FieldValue::Null,
        };
        proof {
            assert(field_value_view(fv) == value_or_null_model(pair.1));
        }
        fm.insert(name, fv);
        done += 1;
        proof {
            let sub = orig.subrange(0, done as int);
            assert(sub.drop_last() =~= orig.subrange(0, pre_done));
            assert(sub.last() == pair);
            assert(fields@ =~= orig.subrange(done as int, orig.len() as int));
        }
    }
    proof {
        assert(orig.subrange(0, orig.len() as int) =~= orig);
    }
    Ok(Feature { geometry_wkb, srid, fields: fm })
}

} // verus!
