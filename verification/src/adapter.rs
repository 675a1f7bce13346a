//! The adapter's marshalling step: the engine hands back one bucket of boxes
//! per class index; the adapter flattens the buckets into a list of
//! (class name, box) pairs — classes in ascending index order, boxes of one
//! class in the engine's order — and serializes that list to JSON. The
//! functions here take the engine's outcome as a value, so everything they
//! promise holds whatever the engine returned.

use vstd::prelude::*;

use crate::bbox::Bbox;
use crate::coco_classes;
use crate::coco_classes::CLASS_COUNT;
use crate::coco_classes::spec_class_name;
use crate::json;

verus! {

/// Per-class buckets seen as mathematics: one sequence of boxes per class.
pub open spec fn buckets_view(buckets: Seq<Vec<Bbox>>) -> Seq<Seq<Bbox>> {
    buckets.map_values(|v: Vec<Bbox>| v@)
}

/// One bucket's boxes, each paired with the bucket's class index.
pub open spec fn tag_bucket(i: int, bucket: Seq<Bbox>) -> Seq<(int, Bbox)> {
    bucket.map_values(|b: Bbox| (i, b))
}

/// All buckets flattened: class indices ascending, within one class the
/// bucket's own order, each box paired with its class index.
pub open spec fn spec_flatten(buckets: Seq<Seq<Bbox>>) -> Seq<(int, Bbox)>
    decreases buckets.len(),
{
    if buckets.len() == 0 { Seq::empty() } else {
        spec_flatten(buckets.drop_last()) + tag_bucket(buckets.len() - 1, buckets.last())
    }
}

/// Class indices replaced by the table's names.
pub open spec fn name_pairs(tagged: Seq<(int, Bbox)>) -> Seq<(Seq<char>, Bbox)> {
    tagged.map_values(|p: (int, Bbox)| (spec_class_name(p.0), p.1))
}

/// The flat detection list for given buckets: (class name, box) pairs.
pub open spec fn spec_detections(buckets: Seq<Seq<Bbox>>) -> Seq<(Seq<char>, Bbox)> {
    name_pairs(spec_flatten(buckets))
}

/// The JSON text a successful run returns for given buckets.
pub open spec fn spec_output(buckets: Seq<Seq<Bbox>>) -> Seq<char> {
    json::json_list(spec_detections(buckets))
}

/// Where class `i`'s boxes start in the flat list: the number of boxes in
/// all buckets before it.
pub open spec fn bucket_offset(buckets: Seq<Seq<Bbox>>, i: int) -> int
    decreases i,
{
    if i <= 0 { 0 } else { bucket_offset(buckets, i - 1) + buckets[i - 1].len() }
}

/// Flattens the buckets into the detection list, pairing each box with its
/// class's name from the table.
pub fn flatten(buckets: &Vec<Vec<Bbox>>) -> (r: Vec<(String, Bbox)>)
    requires
        buckets@.len() == CLASS_COUNT,
    ensures
        json::entries_view(r@) == spec_detections(buckets_view(buckets@)),
{
    let ghost bv = buckets_view(buckets@);
    let mut r: Vec<(String, Bbox)> = Vec::new();
    proof {
        assert(bv.take(0) =~= Seq::<Seq<Bbox>>::empty());
        assert(json::entries_view(r@) =~= spec_detections(bv.take(0)));
    }
    let mut i: usize = 0;
    while i < buckets.len()
        invariant
            buckets@.len() == CLASS_COUNT,
            bv == buckets_view(buckets@),
            i <= CLASS_COUNT,
            json::entries_view(r@) == spec_detections(bv.take(i as int)),
        decreases buckets.len() - i,
    {
        let bucket = &buckets[i];
        let mut j: usize = 0;
        proof {
            assert(tag_bucket(i as int, bv[i as int].take(0)) =~= Seq::<(int, Bbox)>::empty());
            assert(json::entries_view(r@) =~= spec_detections(bv.take(i as int))
                + name_pairs(tag_bucket(i as int, bv[i as int].take(0))));
        }
        while j < bucket.len()
            invariant
                buckets@.len() == CLASS_COUNT,
                bv == buckets_view(buckets@),
                i < CLASS_COUNT,
                bucket == &buckets[i as int],
                j <= bucket@.len(),
                json::entries_view(r@) == spec_detections(bv.take(i as int))
                    + name_pairs(tag_bucket(i as int, bv[i as int].take(j as int))),
            decreases bucket.len() - j,
        {
            let name = String::from_str(coco_classes::class_name(i));
            let b = bucket[j];
            let ghost r0 = r@;
            r.push((name, b));
            proof {
                assert(bv[i as int] == bucket@);
                assert(bv[i as int].take(j as int + 1)
                    =~= bv[i as int].take(j as int).push(bucket@[j as int]));
                assert(tag_bucket(i as int, bv[i as int].take(j as int + 1))
                    =~= tag_bucket(i as int, bv[i as int].take(j as int))
                        .push((i as int, bucket@[j as int])));
                assert(name_pairs(tag_bucket(i as int, bv[i as int].take(j as int + 1)))
                    =~= name_pairs(tag_bucket(i as int, bv[i as int].take(j as int)))
                        .push((spec_class_name(i as int), bucket@[j as int])));
                assert(json::entries_view(r@) =~= json::entries_view(r0).push((name@, b)));
                assert(json::entries_view(r@) =~= spec_detections(bv.take(i as int))
                    + name_pairs(tag_bucket(i as int, bv[i as int].take(j as int + 1))));
            }
            j += 1;
        }
        proof {
            assert(bv[i as int].take(bucket@.len() as int) =~= bv[i as int]);
            assert(bv.take(i as int + 1).drop_last() =~= bv.take(i as int));
            assert(bv.take(i as int + 1).last() == bv[i as int]);
            assert(spec_flatten(bv.take(i as int + 1)) == spec_flatten(bv.take(i as int))
                + tag_bucket(i as int, bv[i as int]));
            assert(json::entries_view(r@) =~= spec_detections(bv.take(i as int + 1)));
        }
        i += 1;
    }
    proof {
        assert(bv.take(buckets@.len() as int) =~= bv);
    }
    r
}

/// Serializes the engine's buckets: flatten, then emit JSON.
pub fn render_detections(buckets: &Vec<Vec<Bbox>>) -> (r: String)
    requires
        buckets@.len() == CLASS_COUNT,
    ensures
        r@ == spec_output(buckets_view(buckets@)),
{
    let detections = flatten(buckets);
    json::json_of_detections(&detections)
}

/// Completes a run from the engine's outcome. A successful inference is
/// serialized; an engine failure is passed through with its message intact,
/// and nothing is retained, so a later call with a successful outcome still
/// succeeds.
pub fn finish_run(engine_result: Result<Vec<Vec<Bbox>>, String>) -> (r: Result<String, String>)
    requires
        engine_result is Ok ==> engine_result->Ok_0@.len() == CLASS_COUNT,
    ensures
        engine_result is Ok ==> r is Ok
            && r->Ok_0@ == spec_output(buckets_view(engine_result->Ok_0@)),
        engine_result is Err ==> r is Err && r->Err_0@ == engine_result->Err_0@,
{
    match engine_result {
        Ok(buckets) => Ok(render_detections(&buckets)),
        Err(message) => Err(message),
    }
}

} // verus!
