//! The status subscriber: what the long-running loop does with each item of
//! the subscription stream, and what the latest-state cache holds as a result.
//! The task that owns the stream and the store performs the actions.
use vstd::prelude::*;
use crate::model::{SensorFields, SensorStatus, zero_fields};
use crate::bridge::status_reply_spec;

verus! {

/// One item of the subscription stream: a status value, the withdrawal of a
/// key, a transport error on one item, or the end of the stream.
pub enum StatusItem {
    Value(SensorStatus),
    Disposed,
    Failed,
    Ended,
}

/// What the loop does with an item: store the status under its key, leave the
/// cache as it is and go on, or stop consuming.
#[derive(Debug, PartialEq, Eq)]
pub enum SubscriberAction {
    Store { key: String, status: SensorStatus },
    Skip,
    Stop,
}

/// A stream item as mathematical values.
pub enum ItemView {
    Value(SensorFields),
    Disposed,
    Failed,
    Ended,
}

/// A loop action as mathematical values.
pub enum SubscriberActionView {
    Store { key: Seq<char>, status: SensorFields },
    Skip,
    Stop,
}

impl View for StatusItem {
    type V = ItemView;

    open spec fn view(&self) -> ItemView {
        match self {
            StatusItem::Value(s) => ItemView::Value(s@),
            StatusItem::Disposed => ItemView::Disposed,
            StatusItem::Failed => ItemView::Failed,
            StatusItem::Ended => ItemView::Ended,
        }
    }
}

impl View for SubscriberAction {
    type V = SubscriberActionView;

    open spec fn view(&self) -> SubscriberActionView {
        match self {
            SubscriberAction::Store { key, status } => SubscriberActionView::Store {
                key: key@,
                status: status@,
            },
            SubscriberAction::Skip => SubscriberActionView::Skip,
            SubscriberAction::Stop => SubscriberActionView::Stop,
        }
    }
}

/// A value is stored under its own key; withdrawals and item errors change
/// nothing (stale entries are kept rather than lost); the end of the stream
/// ends the loop.
pub open spec fn on_item_spec(item: ItemView) -> SubscriberActionView {
    match item {
        ItemView::Value(s) => SubscriberActionView::Store { key: s.sensor_type, status: s },
        ItemView::Disposed => SubscriberActionView::Skip,
        ItemView::Failed => SubscriberActionView::Skip,
        ItemView::Ended => SubscriberActionView::Stop,
    }
}

/// Decides what the loop does with one item of the stream.
pub fn on_item(item: StatusItem) -> (r: SubscriberAction)
    ensures
        r@ == on_item_spec(item@),
{
    match item {
        StatusItem::Value(status) => {
            let key = status.key();
            SubscriberAction::Store { key, status }
        },
        StatusItem::Disposed => SubscriberAction::Skip,
        StatusItem::Failed => SubscriberAction::Skip,
        StatusItem::Ended => SubscriberAction::Stop,
    }
}

/// The cache as a map from key to latest status after the loop has handled
/// the items in arrival order, starting from `cache`; nothing after the end of
/// the stream is handled.
pub open spec fn cache_after(cache: Map<Seq<char>, SensorFields>, items: Seq<ItemView>) -> Map<
    Seq<char>,
    SensorFields,
>
    decreases items.len(),
{
    if items.len() == 0 {
        cache
    } else {
        match on_item_spec(items[0]) {
            SubscriberActionView::Store { key, status } => cache_after(
                cache.insert(key, status),
                items.drop_first(),
            ),
            SubscriberActionView::Skip => cache_after(cache, items.drop_first()),
            SubscriberActionView::Stop => cache,
        }
    }
}

/// Whether an item is a value for the key.
pub open spec fn is_value_for(item: ItemView, key: Seq<char>) -> bool {
    match item {
        ItemView::Value(s) => s.sensor_type == key,
        _ => false,
    }
}

/// What a status read on a key answers with the cache as it stands.
pub open spec fn read_status_spec(cache: Map<Seq<char>, SensorFields>, key: Seq<char>) -> (
    u16,
    SensorFields,
) {
    status_reply_spec(if cache.contains_key(key) { Some(cache[key]) } else { None })
}

proof fn lemma_cache_after_untouched(
    cache: Map<Seq<char>, SensorFields>,
    items: Seq<ItemView>,
    key: Seq<char>,
)
    requires
        forall|j: int| 0 <= j < items.len() ==> !is_value_for(#[trigger] items[j], key),
    ensures
        cache_after(cache, items).contains_key(key) == cache.contains_key(key),
        cache.contains_key(key) ==> cache_after(cache, items)[key] == cache[key],
    decreases items.len(),
{
    if items.len() > 0 {
        assert(!is_value_for(items[0], key));
        assert forall|j: int| 0 <= j < items.drop_first().len() implies !is_value_for(
            #[trigger] items.drop_first()[j],
            key,
        ) by {
            assert(items.drop_first()[j] == items[j + 1]);
        }
        match on_item_spec(items[0]) {
            SubscriberActionView::Store { key: k, status } => {
                lemma_cache_after_untouched(cache.insert(k, status), items.drop_first(), key);
            },
            SubscriberActionView::Skip => {
                lemma_cache_after_untouched(cache, items.drop_first(), key);
            },
            SubscriberActionView::Stop => {},
        }
    }
}

/// Last write wins: once the loop has handled a run of items in which the
/// stream does not end and whose last value for a key is `v`, a status read
/// on that key answers `v` with a success code, never an earlier value.
pub proof fn lemma_last_write_wins(
    cache: Map<Seq<char>, SensorFields>,
    items: Seq<ItemView>,
    i: int,
    v: SensorFields,
)
    requires
        0 <= i < items.len(),
        items[i] == ItemView::Value(v),
        forall|j: int| 0 <= j < items.len() ==> !(#[trigger] items[j] is Ended),
        forall|j: int| i < j < items.len() ==> !is_value_for(#[trigger] items[j], v.sensor_type),
    ensures
        cache_after(cache, items).contains_key(v.sensor_type),
        cache_after(cache, items)[v.sensor_type] == v,
        read_status_spec(cache_after(cache, items), v.sensor_type) == (200u16, v),
    decreases items.len(),
{
    let rest = items.drop_first();
    assert(!(items[0] is Ended));
    if i == 0 {
        let c1 = cache.insert(v.sensor_type, v);
        assert forall|j: int| 0 <= j < rest.len() implies !is_value_for(
            #[trigger] rest[j],
            v.sensor_type,
        ) by {
            assert(rest[j] == items[j + 1]);
        }
        lemma_cache_after_untouched(c1, rest, v.sensor_type);
    } else {
        assert forall|j: int| 0 <= j < rest.len() implies !(#[trigger] rest[j] is Ended) by {
            assert(rest[j] == items[j + 1]);
        }
        assert forall|j: int| i - 1 < j < rest.len() implies !is_value_for(
            #[trigger] rest[j],
            v.sensor_type,
        ) by {
            assert(rest[j] == items[j + 1]);
        }
        match on_item_spec(items[0]) {
            SubscriberActionView::Store { key: k, status } => {
                lemma_last_write_wins(cache.insert(k, status), rest, i - 1, v);
            },
            _ => {
                lemma_last_write_wins(cache, rest, i - 1, v);
            },
        }
    }
}

/// A status read on a key that was never written, neither before the loop
/// started nor by any item it handled, answers the zero-valued record with a
/// failure code.
pub proof fn lemma_never_written(
    cache: Map<Seq<char>, SensorFields>,
    items: Seq<ItemView>,
    key: Seq<char>,
)
    requires
        !cache.contains_key(key),
        forall|j: int| 0 <= j < items.len() ==> !is_value_for(#[trigger] items[j], key),
    ensures
        read_status_spec(cache_after(cache, items), key) == (500u16, zero_fields()),
{
    lemma_cache_after_untouched(cache, items, key);
}

} // verus!
