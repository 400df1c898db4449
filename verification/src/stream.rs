//! The feature stream's decision core: a forward-only cursor over the
//! feature indices of one opened dataset. The native reads happen outside
//! the verified core; the loop that drives them asks this cursor which index
//! to fetch, hands back what the dataset held at that index, and receives
//! either nothing (a logically absent slot, skipped silently) or the
//! converted record for that slot. Records therefore come out in ascending
//! source-index order, and the stream is finite: once the captured feature
//! count is reached it yields nothing further and cannot be restarted.
use vstd::prelude::*;
use crate::record::convert_feature;
use crate::record::raw_convertible;
use crate::record::raw_record_model;
use crate::record::ConversionError;
use crate::record::Feature;
use crate::record::RawFeature;
use crate::record::RecordModel;
use crate::record::feature_model;

verus! {

/// Selects the layer of a dataset to stream from, by zero-based index or by
/// name. Resolving the selector against an open dataset is native-library
/// work done outside the verified core, freshly at every iteration step.
#[derive(Clone, Debug)]
pub enum LayerSelector {
    Index(usize),
    Name(String),
}

/// The cursor state of one feature stream: the next source index to fetch
/// and the feature count captured when the stream was constructed.
pub struct FeatureStream {
    current_index: u64,
    feature_count: u64,
}

impl FeatureStream {
    /// The next source index the stream will ask for.
    pub closed spec fn index(&self) -> int {
        self.current_index as int
    }

    /// The feature count captured at construction.
    pub closed spec fn count(&self) -> int {
        self.feature_count as int
    }

    /// Opens a stream over a dataset whose layer reported this feature
    /// count; reading starts at source index zero.
    pub fn new(feature_count: u64) -> (s: Self)
        ensures
            s.index() == 0,
            s.count() == feature_count as int,
    {
        FeatureStream { current_index: 0, feature_count }
    }

    /// The captured feature count.
    pub fn feature_count(&self) -> (r: u64)
        ensures
            r as int == self.count(),
    {
        self.feature_count
    }

    /// The stream has passed its captured feature count and yields nothing
    /// further; no operation moves the cursor back, so exhaustion is
    /// permanent.
    pub fn is_exhausted(&self) -> (r: bool)
        ensures
            r <==> self.index() >= self.count(),
    {
        self.current_index >= self.feature_count
    }

    /// The source index to fetch next, or nothing when the stream is
    /// exhausted.
    pub fn next_fetch_index(&self) -> (r: Option<u64>)
        ensures
            r is Some <==> self.index() < self.count(),
            r is Some ==> r->0 as int == self.index(),
    {
        if self.current_index < self.feature_count {
            Some(self.current_index)
        } else {
            None
        }
    }

    /// Takes what the dataset held at the requested index and advances the
    /// cursor by one. An absent slot yields nothing and is never surfaced
    /// as an error or a gap; a present feature yields its conversion
    /// result.
    pub fn on_slot(&mut self, fetched: Option<RawFeature>, srid: Option<i32>) -> (r: Option<
        Result<Feature, ConversionError>,
    >)
        requires
            old(self).index() < old(self).count(),
        ensures
            final(self).count() == old(self).count(),
            final(self).index() == old(self).index() + 1,
            r is None <==> fetched is None,
            fetched matches Some(raw) ==> (r matches Some(res) && (res is Ok <==> raw_convertible(
                raw,
            )) && (res is Ok ==> (res->Ok_0).wf() && feature_model(res->Ok_0) == raw_record_model(
                raw,
                srid,
            )) && (res is Err ==> res->Err_0 is MissingGeometry)),
    {
        self.current_index = self.current_index + 1;
        match fetched {
            None => None,
            Some(raw) => Some(convert_feature(raw, srid)),
        }
    }
}

/// What a full run of the stream yields over a dataset whose slot `i` held
/// `slots[i]`: the records of the present slots, in ascending source-index
/// order; absent slots contribute nothing.
pub open spec fn stream_yield(slots: Seq<Option<RawFeature>>, srid: Option<i32>) -> Seq<
    RecordModel,
>
    decreases slots.len(),
{
    if slots.len() == 0 {
        Seq::<RecordModel>::empty()
    } else {
        stream_yield(slots.drop_last(), srid) + (match slots.last() {
            Some(raw) => seq![raw_record_model(raw, srid)],
            None => Seq::<RecordModel>::empty(),
        })
    }
}

/// The number of present (retrievable) slots of a dataset.
pub open spec fn present_count(slots: Seq<Option<RawFeature>>) -> nat {
    slots.filter(|o: Option<RawFeature>| o is Some).len()
}

/// Stream exhaustion: over a dataset with N retrievable features, all
/// convertible, a full run yields exactly N records, and they are the
/// records of the present slots in ascending source-index order.
pub proof fn lemma_stream_exhaustion(slots: Seq<Option<RawFeature>>, srid: Option<i32>)
    requires
        forall|i: int| 0 <= i < slots.len() && (#[trigger] slots[i]) is Some ==> raw_convertible(
            slots[i]->0,
        ),
    ensures
        stream_yield(slots, srid).len() == present_count(slots),
        stream_yield(slots, srid) == slots.filter(|o: Option<RawFeature>| o is Some).map_values(
            |o: Option<RawFeature>| raw_record_model(o->0, srid),
        ),
    decreases slots.len(),
{
    let pred = |o: Option<RawFeature>| o is Some;
    let conv = |o: Option<RawFeature>| raw_record_model(o->0, srid);
    if slots.len() == 0 {
        assert(slots.filter(pred) =~= slots);
        assert(stream_yield(slots, srid) =~= slots.filter(pred).map_values(conv));
    } else {
        let pre = slots.drop_last();
        assert(forall|i: int|
            0 <= i < pre.len() && (#[trigger] pre[i]) is Some ==> raw_convertible(pre[i]->0));
        lemma_stream_exhaustion(pre, srid);
        reveal_with_fuel(Seq::filter, 2);
        if slots.last() is Some {
            assert(slots.filter(pred) =~= pre.filter(pred).push(slots.last()));
            assert(slots.filter(pred).map_values(conv) =~= pre.filter(pred).map_values(conv).push(
                conv(slots.last()),
            ));
            assert(stream_yield(slots, srid) =~= stream_yield(pre, srid).push(
                raw_record_model(slots.last()->0, srid),
            ));
        } else {
            assert(slots.filter(pred) =~= pre.filter(pred));
            assert(stream_yield(slots, srid) =~= stream_yield(pre, srid));
        }
    }
}

} // verus!
