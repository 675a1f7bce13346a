//! The properties the adapter's output keeps, stated and proved over the
//! spec-level flattening and serialization: every entry is named from the
//! class table, class indices never decrease along the list, each bucket's
//! boxes appear contiguously in their own order, empty buckets render as the
//! empty array, and the output is a function of the buckets alone.

use vstd::prelude::*;

use crate::adapter::bucket_offset;
use crate::adapter::spec_detections;
use crate::adapter::spec_flatten;
use crate::adapter::spec_output;
use crate::adapter::tag_bucket;
use crate::bbox::Bbox;
use crate::coco_classes::CLASS_COUNT;
use crate::coco_classes::spec_class_name;

verus! {

/// Every flattened pair carries a class index within the bucket range.
pub proof fn lemma_flatten_class_in_range(buckets: Seq<Seq<Bbox>>)
    ensures
        forall|k: int| 0 <= k < spec_flatten(buckets).len()
            ==> 0 <= #[trigger] spec_flatten(buckets)[k].0 < buckets.len(),
    decreases buckets.len(),
{
    if buckets.len() > 0 {
        let left = spec_flatten(buckets.drop_last());
        let right = tag_bucket(buckets.len() - 1, buckets.last());
        lemma_flatten_class_in_range(buckets.drop_last());
        assert forall|k: int| 0 <= k < spec_flatten(buckets).len()
            implies 0 <= #[trigger] spec_flatten(buckets)[k].0 < buckets.len() by {
            if k < left.len() {
                assert(spec_flatten(buckets)[k] == left[k]);
            } else {
                assert(spec_flatten(buckets)[k] == right[k - left.len()]);
            }
        }
    }
}

/// Every entry of the flat detection list is named by some class of the
/// 80-entry table.
pub proof fn lemma_detections_named_from_table(buckets: Seq<Seq<Bbox>>, k: int)
    requires
        buckets.len() == CLASS_COUNT,
        0 <= k < spec_detections(buckets).len(),
    ensures
        exists|i: int| 0 <= i < CLASS_COUNT
            && #[trigger] spec_class_name(i) == spec_detections(buckets)[k].0,
{
    lemma_flatten_class_in_range(buckets);
    let i = spec_flatten(buckets)[k].0;
    assert(spec_detections(buckets)[k].0 == spec_class_name(i));
}

/// Along the flat list the class index never decreases: classes come in
/// ascending table order.
pub proof fn lemma_flatten_class_monotone(buckets: Seq<Seq<Bbox>>, k1: int, k2: int)
    requires
        0 <= k1 <= k2 < spec_flatten(buckets).len(),
    ensures
        spec_flatten(buckets)[k1].0 <= spec_flatten(buckets)[k2].0,
    decreases buckets.len(),
{
    if buckets.len() > 0 {
        let left = spec_flatten(buckets.drop_last());
        let right = tag_bucket(buckets.len() - 1, buckets.last());
        if k2 < left.len() {
            lemma_flatten_class_monotone(buckets.drop_last(), k1, k2);
            assert(spec_flatten(buckets)[k1] == left[k1]);
            assert(spec_flatten(buckets)[k2] == left[k2]);
        } else if k1 >= left.len() {
            assert(spec_flatten(buckets)[k1] == right[k1 - left.len()]);
            assert(spec_flatten(buckets)[k2] == right[k2 - left.len()]);
        } else {
            lemma_flatten_class_in_range(buckets.drop_last());
            assert(spec_flatten(buckets)[k1] == left[k1]);
            assert(spec_flatten(buckets)[k2] == right[k2 - left.len()]);
        }
    }
}

/// Bucket offsets read only the buckets before `i`, so two bucket sequences
/// that agree there have the same offset.
proof fn lemma_bucket_offset_prefix(b1: Seq<Seq<Bbox>>, b2: Seq<Seq<Bbox>>, i: int)
    requires
        i <= b1.len(),
        i <= b2.len(),
        forall|k: int| 0 <= k < i ==> b1[k] == b2[k],
    ensures
        bucket_offset(b1, i) == bucket_offset(b2, i),
    decreases i,
{
    if i > 0 {
        lemma_bucket_offset_prefix(b1, b2, i - 1);
    }
}

/// The flat list holds exactly as many pairs as the buckets hold boxes.
pub proof fn lemma_flatten_len(buckets: Seq<Seq<Bbox>>)
    ensures
        spec_flatten(buckets).len() == bucket_offset(buckets, buckets.len() as int),
    decreases buckets.len(),
{
    if buckets.len() > 0 {
        lemma_flatten_len(buckets.drop_last());
        lemma_bucket_offset_prefix(buckets.drop_last(), buckets, buckets.len() - 1);
    }
}

/// Within one class the engine's order is kept: box `j` of bucket `i` stands
/// at position `bucket_offset(buckets, i) + j` of the flat list, tagged with
/// class `i`.
pub proof fn lemma_flatten_at(buckets: Seq<Seq<Bbox>>, i: int, j: int)
    requires
        0 <= i < buckets.len(),
        0 <= j < buckets[i].len(),
    ensures
        0 <= bucket_offset(buckets, i) + j < spec_flatten(buckets).len(),
        spec_flatten(buckets)[bucket_offset(buckets, i) + j] == (i, buckets[i][j]),
    decreases buckets.len(),
{
    let left = spec_flatten(buckets.drop_last());
    let right = tag_bucket(buckets.len() - 1, buckets.last());
    if i == buckets.len() - 1 {
        lemma_flatten_len(buckets.drop_last());
        lemma_bucket_offset_prefix(buckets.drop_last(), buckets, i);
        assert(bucket_offset(buckets, i) + j - left.len() == j);
        assert(right[j] == (i, buckets[i][j]));
    } else {
        lemma_flatten_at(buckets.drop_last(), i, j);
        lemma_bucket_offset_prefix(buckets.drop_last(), buckets, i);
        assert(spec_flatten(buckets)[bucket_offset(buckets, i) + j]
            == left[bucket_offset(buckets, i) + j]);
    }
}

/// Buckets with no boxes at all — however many of them — render as `[]`.
pub proof fn lemma_empty_buckets_output(buckets: Seq<Seq<Bbox>>)
    requires
        forall|i: int| 0 <= i < buckets.len() ==> #[trigger] buckets[i].len() == 0,
    ensures
        spec_output(buckets) == "[]"@,
{
    lemma_flatten_all_empty(buckets);
    assert(spec_detections(buckets) =~= Seq::<(Seq<char>, Bbox)>::empty());
    reveal_strlit("[");
    reveal_strlit("]");
    reveal_strlit("[]");
    assert(spec_output(buckets) =~= "[]"@);
}

/// Flattening buckets that are all empty yields the empty list.
proof fn lemma_flatten_all_empty(buckets: Seq<Seq<Bbox>>)
    requires
        forall|i: int| 0 <= i < buckets.len() ==> #[trigger] buckets[i].len() == 0,
    ensures
        spec_flatten(buckets) =~= Seq::<(int, Bbox)>::empty(),
    decreases buckets.len(),
{
    if buckets.len() > 0 {
        lemma_flatten_all_empty(buckets.drop_last());
    }
}

/// Printable ASCII with no quote and no backslash: text that stands inside
/// a JSON string literal unescaped and means itself.
pub open spec fn plain_text(s: Seq<char>) -> bool {
    forall|k: int| 0 <= k < s.len()
        ==> 0x20 <= #[trigger] s[k] as int <= 0x7e && s[k] != '"' && s[k] != '\\'
}

/// Every name of the class table is plain text, so the serializer may place
/// it between quotes verbatim and the entry parses back to the same name.
#[verifier::rlimit(60)]
pub proof fn lemma_class_names_plain(i: int)
    requires
        0 <= i < CLASS_COUNT,
    ensures
        plain_text(spec_class_name(i)),
{
    reveal_strlit("person");
    reveal_strlit("bicycle");
    reveal_strlit("car");
    reveal_strlit("motorbike");
    reveal_strlit("aeroplane");
    reveal_strlit("bus");
    reveal_strlit("train");
    reveal_strlit("truck");
    reveal_strlit("boat");
    reveal_strlit("traffic light");
    reveal_strlit("fire hydrant");
    reveal_strlit("stop sign");
    reveal_strlit("parking meter");
    reveal_strlit("bench");
    reveal_strlit("bird");
    reveal_strlit("cat");
    reveal_strlit("dog");
    reveal_strlit("horse");
    reveal_strlit("sheep");
    reveal_strlit("cow");
    reveal_strlit("elephant");
    reveal_strlit("bear");
    reveal_strlit("zebra");
    reveal_strlit("giraffe");
    reveal_strlit("backpack");
    reveal_strlit("umbrella");
    reveal_strlit("handbag");
    reveal_strlit("tie");
    reveal_strlit("suitcase");
    reveal_strlit("frisbee");
    reveal_strlit("skis");
    reveal_strlit("snowboard");
    reveal_strlit("sports ball");
    reveal_strlit("kite");
    reveal_strlit("baseball bat");
    reveal_strlit("baseball glove");
    reveal_strlit("skateboard");
    reveal_strlit("surfboard");
    reveal_strlit("tennis racket");
    reveal_strlit("bottle");
    reveal_strlit("wine glass");
    reveal_strlit("cup");
    reveal_strlit("fork");
    reveal_strlit("knife");
    reveal_strlit("spoon");
    reveal_strlit("bowl");
    reveal_strlit("banana");
    reveal_strlit("apple");
    reveal_strlit("sandwich");
    reveal_strlit("orange");
    reveal_strlit("broccoli");
    reveal_strlit("carrot");
    reveal_strlit("hot dog");
    reveal_strlit("pizza");
    reveal_strlit("donut");
    reveal_strlit("cake");
    reveal_strlit("chair");
    reveal_strlit("sofa");
    reveal_strlit("pottedplant");
    reveal_strlit("bed");
    reveal_strlit("diningtable");
    reveal_strlit("toilet");
    reveal_strlit("tvmonitor");
    reveal_strlit("laptop");
    reveal_strlit("mouse");
    reveal_strlit("remote");
    reveal_strlit("keyboard");
    reveal_strlit("cell phone");
    reveal_strlit("microwave");
    reveal_strlit("oven");
    reveal_strlit("toaster");
    reveal_strlit("sink");
    reveal_strlit("refrigerator");
    reveal_strlit("book");
    reveal_strlit("clock");
    reveal_strlit("vase");
    reveal_strlit("scissors");
    reveal_strlit("teddy bear");
    reveal_strlit("hair drier");
    reveal_strlit("toothbrush");
    assert(plain_text(spec_class_name(i)));
}

/// Running twice over the same buckets gives the same JSON: the output is a
/// function of the bucket contents and of nothing else, so a run neither
/// reads nor leaves any other state behind.
pub proof fn lemma_output_deterministic(b1: Seq<Seq<Bbox>>, b2: Seq<Seq<Bbox>>)
    requires
        b1 == b2,
    ensures
        spec_output(b1) == spec_output(b2),
{
}

} // verus!
