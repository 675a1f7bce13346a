//! Adapter around an object-detection engine: a fixed table of class names,
//! a bounding-box record, and the marshalling of per-class detections into a
//! JSON string, with the ordering and structure of the output proved.

pub mod adapter;
pub mod bbox;
pub mod coco_classes;
pub mod json;
pub mod laws;
