//! Write requests: one database point per metric.

use crate::metric::{NamedMetric, Quantity};
use influent::measurement::{Measurement, Value};
use vstd::prelude::*;

verus! {

/// Name of the point every metric is written to.
pub const POINT_NAME: &'static str = "sensor";

/// Name of the one field of a point.
pub const FIELD_NAME: &'static str = "value";

/// Key of the tag that holds the device identity.
pub const TAG_ID: &'static str = "id";

/// Key of the tag that holds the sensor model.
pub const TAG_NAME: &'static str = "name";

/// Key of the tag that holds the metric's name.
pub const TAG_TYPE: &'static str = "type";

/// The database client's point: `influent::measurement::Measurement`.
/// Nothing inside it is visible to the verifier.
#[verifier::external_type_specification]
#[verifier::external_body]
pub struct ExMeasurement<'a>(influent::measurement::Measurement<'a>);

/// The database client's field value: `influent::measurement::Value`.
/// It is carried through unread.
#[verifier::external_type_specification]
#[verifier::external_body]
pub struct ExValue<'a>(influent::measurement::Value<'a>);

/// The key of a point: what `Measurement::key` holds.
pub uninterp spec fn point_key(point: Measurement<'static>) -> Seq<char>;

/// The timestamp of a point: what `Measurement::timestamp` holds.
pub uninterp spec fn point_timestamp(point: Measurement<'static>) -> Option<i64>;

/// The fields of a point: what `Measurement::fields` maps each name to.
pub uninterp spec fn point_fields(point: Measurement<'static>) -> Map<Seq<char>, Value<'static>>;

/// The tags of a point: what `Measurement::tags` maps each key to.
pub uninterp spec fn point_tags(point: Measurement<'static>) -> Map<Seq<char>, Seq<char>>;

/// What a point says: its key, its timestamp, its fields and its tags.
pub struct PointContent<V> {
    pub key: Seq<char>,
    pub timestamp: Option<i64>,
    pub fields: Map<Seq<char>, V>,
    pub tags: Map<Seq<char>, Seq<char>>,
}

/// What a point of the database client says.
pub open spec fn content(point: Measurement<'static>) -> PointContent<Value<'static>> {
    PointContent {
        key: point_key(point),
        timestamp: point_timestamp(point),
        fields: point_fields(point),
        tags: point_tags(point),
    }
}

/// The tags under which a quantity is written: device identity, sensor model
/// and, as the type, the quantity's name.
pub open spec fn tags_for(quantity: Quantity) -> Map<Seq<char>, Seq<char>> {
    Map::empty().insert("id"@, "MAC"@).insert("name"@, "bme680"@).insert("type"@, quantity.label())
}

/// The write request of a metric: a point named `sensor` without a timestamp,
/// whose single field `value` holds the metric's value, tagged for the
/// metric's quantity.
pub open spec fn request_for<V>(metric: NamedMetric<V>) -> PointContent<V> {
    PointContent {
        key: "sensor"@,
        timestamp: None,
        fields: Map::empty().insert("value"@, metric.value),
        tags: tags_for(metric.quantity),
    }
}

/// Calls `Measurement::new`. The new point has the given key, no timestamp,
/// and neither fields nor tags.
#[verifier::external_body]
fn measurement_new<'a>(key: &'a str) -> (point: Measurement<'a>)
    ensures
        point_key(point) == key@,
        point_timestamp(point) is None,
        point_fields(point) =~= Map::empty(),
        point_tags(point) =~= Map::empty(),
{
    Measurement::new(key)
}

/// Calls `Measurement::add_field`. The field is set to the value, replacing
/// what it held; the key, the timestamp, the other fields and the tags stay.
#[verifier::external_body]
fn measurement_add_field<'a>(point: &mut Measurement<'a>, field: &'a str, value: Value<'a>)
    ensures
        point_key(*final(point)) == point_key(*old(point)),
        point_timestamp(*final(point)) == point_timestamp(*old(point)),
        point_fields(*final(point)) == point_fields(*old(point)).insert(field@, value),
        point_tags(*final(point)) == point_tags(*old(point)),
{
    point.add_field(field, value);
}

/// Calls `Measurement::add_tag`. The tag is set to the value, replacing what
/// it held; the key, the timestamp, the fields and the other tags stay.
#[verifier::external_body]
fn measurement_add_tag<'a>(point: &mut Measurement<'a>, tag: &'a str, value: &'a str)
    ensures
        point_key(*final(point)) == point_key(*old(point)),
        point_timestamp(*final(point)) == point_timestamp(*old(point)),
        point_fields(*final(point)) == point_fields(*old(point)),
        point_tags(*final(point)) == point_tags(*old(point)).insert(tag@, value@),
{
    point.add_tag(tag, value);
}

/// Builds the write request of a metric.
pub fn write_request<'a>(metric: NamedMetric<Value<'a>>) -> (point: Measurement<'a>)
    ensures
        content(point) == request_for(metric),
{
    let tags = metric.tags();
    let mut point = measurement_new(POINT_NAME);
    measurement_add_field(&mut point, FIELD_NAME, metric.value);
    measurement_add_tag(&mut point, TAG_ID, tags.id);
    measurement_add_tag(&mut point, TAG_NAME, tags.name);
    measurement_add_tag(&mut point, TAG_TYPE, tags.kind);
    point
}

/// A write request has exactly one field, `value`, which holds the metric's
/// value, and exactly the tags `id`, `name` and `type`, which hold the device
/// identity, the sensor model and the metric's name.
pub proof fn lemma_request_content<V>(metric: NamedMetric<V>)
    ensures
        request_for(metric).fields.dom() =~= set!["value"@],
        request_for(metric).fields["value"@] == metric.value,
        request_for(metric).tags.dom() =~= set!["id"@, "name"@, "type"@],
        request_for(metric).tags["id"@] == "MAC"@,
        request_for(metric).tags["name"@] == "bme680"@,
        request_for(metric).tags["type"@] == metric.quantity.label(),
{
    reveal_strlit("id");
    reveal_strlit("name");
    reveal_strlit("type");
    assert("id"@.len() == 2 && "name"@.len() == 4 && "type"@.len() == 4);
    assert("name"@[0] != "type"@[0]);
}

} // verus!
