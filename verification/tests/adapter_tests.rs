use yolo_wasm::adapter::finish_run;
use yolo_wasm::adapter::flatten;
use yolo_wasm::adapter::render_detections;
use yolo_wasm::bbox::Bbox;
use yolo_wasm::coco_classes::class_name;
use yolo_wasm::coco_classes::CLASS_COUNT;
use yolo_wasm::json::format_milli;
use yolo_wasm::json::format_u32;
use yolo_wasm::json::json_bbox_string;
use yolo_wasm::json::json_entry_string;

fn empty_buckets() -> Vec<Vec<Bbox>> {
    let mut buckets: Vec<Vec<Bbox>> = Vec::new();
    for _ in 0..CLASS_COUNT {
        buckets.push(Vec::new());
    }
    buckets
}

#[test]
fn class_name_table_anchors() {
    assert_eq!(class_name(0), "person");
    assert_eq!(class_name(1), "bicycle");
    assert_eq!(class_name(2), "car");
    assert_eq!(class_name(9), "traffic light");
    assert_eq!(class_name(79), "toothbrush");
}

#[test]
fn class_name_table_has_distinct_entries() {
    let mut seen: Vec<&str> = Vec::new();
    for i in 0..CLASS_COUNT {
        let name = class_name(i);
        assert!(!seen.contains(&name), "duplicate class name {}", name);
        seen.push(name);
    }
    assert_eq!(seen.len(), 80);
}

#[test]
fn format_u32_exact() {
    assert_eq!(format_u32(0), "0");
    assert_eq!(format_u32(7), "7");
    assert_eq!(format_u32(10), "10");
    assert_eq!(format_u32(640), "640");
    assert_eq!(format_u32(4294967295), "4294967295");
}

#[test]
fn format_milli_exact() {
    assert_eq!(format_milli(0), "0");
    assert_eq!(format_milli(1000), "1");
    assert_eq!(format_milli(12500), "12.5");
    assert_eq!(format_milli(250), "0.25");
    assert_eq!(format_milli(1), "0.001");
    assert_eq!(format_milli(100), "0.1");
    assert_eq!(format_milli(1001), "1.001");
    assert_eq!(format_milli(999999), "999.999");
    assert_eq!(format_milli(640000), "640");
}

#[test]
fn bbox_json_exact() {
    let b = Bbox::new(1000, 2000, 3500, 4250, 900);
    assert_eq!(
        json_bbox_string(&b),
        "{\"xmin\":1,\"ymin\":2,\"xmax\":3.5,\"ymax\":4.25,\"confidence\":0.9}"
    );
}

#[test]
fn entry_json_exact() {
    let b = Bbox::new(0, 0, 1000, 1000, 1000);
    assert_eq!(
        json_entry_string("person", &b),
        "[\"person\",{\"xmin\":0,\"ymin\":0,\"xmax\":1,\"ymax\":1,\"confidence\":1}]"
    );
}

#[test]
fn construction_smoke() {
    let b = Bbox::new(100, 200, 300, 400, 500);
    assert_eq!(b.xmin, 100);
    assert_eq!(b.ymin, 200);
    assert_eq!(b.xmax, 300);
    assert_eq!(b.ymax, 400);
    assert_eq!(b.confidence, 500);
    let c = Bbox::new(100, 200, 300, 400, 500);
    assert_eq!(b, c);
}

#[test]
fn empty_detection_renders_empty_array() {
    let buckets = empty_buckets();
    assert_eq!(render_detections(&buckets), "[]");
}

#[test]
fn zero_detections_via_finish_run() {
    let outcome = finish_run(Ok(empty_buckets()));
    assert_eq!(outcome, Ok("[]".to_string()));
}

#[test]
fn ordering_across_classes() {
    // bucket 2 ("car") holds box_a, bucket 0 ("person") holds box_b:
    // the output lists the person entry first, the car entry second.
    let box_a = Bbox::new(5500, 6000, 7500, 8000, 750);
    let box_b = Bbox::new(1000, 2000, 3000, 4000, 900);
    let mut buckets = empty_buckets();
    buckets[2].push(box_a);
    buckets[0].push(box_b);
    let json = render_detections(&buckets);
    assert_eq!(
        json,
        "[[\"person\",{\"xmin\":1,\"ymin\":2,\"xmax\":3,\"ymax\":4,\"confidence\":0.9}],\
         [\"car\",{\"xmin\":5.5,\"ymin\":6,\"xmax\":7.5,\"ymax\":8,\"confidence\":0.75}]]"
    );
}

#[test]
fn within_class_order_preserved() {
    let b1 = Bbox::new(1000, 1000, 2000, 2000, 900);
    let b2 = Bbox::new(3000, 3000, 4000, 4000, 800);
    let b3 = Bbox::new(5000, 5000, 6000, 6000, 700);
    let mut buckets = empty_buckets();
    buckets[0].push(b1);
    buckets[0].push(b2);
    buckets[0].push(b3);
    let json = render_detections(&buckets);
    let parsed: serde_json::Value = serde_json::from_str(&json).unwrap();
    let entries = parsed.as_array().unwrap();
    assert_eq!(entries.len(), 3);
    for entry in entries {
        assert_eq!(entry[0].as_str().unwrap(), "person");
    }
    assert_eq!(entries[0][1]["xmin"].as_f64().unwrap(), 1.0);
    assert_eq!(entries[1][1]["xmin"].as_f64().unwrap(), 3.0);
    assert_eq!(entries[2][1]["xmin"].as_f64().unwrap(), 5.0);
}

#[test]
fn single_person_first() {
    let mut buckets = empty_buckets();
    buckets[0].push(Bbox::new(10000, 20000, 110000, 220000, 250));
    buckets[16].push(Bbox::new(0, 0, 50000, 50000, 500));
    let json = render_detections(&buckets);
    let parsed: serde_json::Value = serde_json::from_str(&json).unwrap();
    let entries = parsed.as_array().unwrap();
    assert!(entries.len() >= 1);
    assert_eq!(entries[0][0].as_str().unwrap(), "person");
}

#[test]
fn output_parses_as_named_pairs() {
    // Fill a few buckets across the table and check the wire shape: an array
    // whose every element is a 2-tuple of a table name and an object, with
    // class indices non-decreasing along the list.
    let mut buckets = empty_buckets();
    buckets[0].push(Bbox::new(0, 0, 1000, 1000, 1000));
    buckets[0].push(Bbox::new(500, 500, 1500, 1500, 250));
    buckets[39].push(Bbox::new(2000, 2000, 3000, 3000, 999));
    buckets[79].push(Bbox::new(0, 0, 640000, 640000, 1));
    let json = render_detections(&buckets);
    let parsed: serde_json::Value = serde_json::from_str(&json).unwrap();
    let entries = parsed.as_array().unwrap();
    assert_eq!(entries.len(), 4);
    let table: Vec<&str> = (0..CLASS_COUNT).map(class_name).collect();
    let mut last_index: usize = 0;
    for entry in entries {
        let pair = entry.as_array().unwrap();
        assert_eq!(pair.len(), 2);
        let name = pair[0].as_str().unwrap();
        let index = table.iter().position(|t| *t == name).unwrap();
        assert!(pair[1].is_object());
        assert!(index >= last_index);
        last_index = index;
    }
}

#[test]
fn flatten_pairs_names_with_boxes() {
    let mut buckets = empty_buckets();
    buckets[5].push(Bbox::new(1000, 1000, 2000, 2000, 600));
    buckets[7].push(Bbox::new(3000, 3000, 4000, 4000, 700));
    let detections = flatten(&buckets);
    assert_eq!(detections.len(), 2);
    assert_eq!(detections[0].0, "bus");
    assert_eq!(detections[0].1.xmin, 1000);
    assert_eq!(detections[1].0, "truck");
    assert_eq!(detections[1].1.xmin, 3000);
}

#[test]
fn run_is_idempotent_on_same_buckets() {
    let mut buckets = empty_buckets();
    buckets[0].push(Bbox::new(1000, 2000, 3000, 4000, 900));
    buckets[56].push(Bbox::new(0, 0, 100, 100, 10));
    let first = render_detections(&buckets);
    let second = render_detections(&buckets);
    assert_eq!(first, second);
}

#[test]
fn error_passthrough() {
    let outcome = finish_run(Err("bad image".to_string()));
    match outcome {
        Ok(_) => panic!("an engine failure must not yield a result"),
        Err(message) => assert!(message.contains("bad image")),
    }
}

#[test]
fn run_after_error_succeeds() {
    let failed = finish_run(Err("bad image".to_string()));
    assert!(failed.is_err());
    let mut buckets = empty_buckets();
    buckets[2].push(Bbox::new(1000, 1000, 2000, 2000, 500));
    let outcome = finish_run(Ok(buckets));
    assert_eq!(
        outcome,
        Ok("[[\"car\",{\"xmin\":1,\"ymin\":1,\"xmax\":2,\"ymax\":2,\"confidence\":0.5}]]"
            .to_string())
    );
}
