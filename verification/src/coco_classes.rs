//! The fixed table of the 80 COCO category names, in canonical order:
//! index 0 is "person", index 79 is "toothbrush". Detections are labelled
//! by indexing this table with the engine's class index.

use vstd::prelude::*;

verus! {

/// Number of entries in the class-name table.
pub const CLASS_COUNT: usize = 80;

/// The name at index `i` of the table, as a character sequence.
/// Indices outside `0..80` are never asked for.
pub open spec fn spec_class_name(i: int) -> Seq<char>
    recommends
        0 <= i < CLASS_COUNT,
{
    if i == 0 { "person"@ }
    else if i == 1 { "bicycle"@ }
    else if i == 2 { "car"@ }
    else if i == 3 { "motorbike"@ }
    else if i == 4 { "aeroplane"@ }
    else if i == 5 { "bus"@ }
    else if i == 6 { "train"@ }
    else if i == 7 { "truck"@ }
    else if i == 8 { "boat"@ }
    else if i == 9 { "traffic light"@ }
    else if i == 10 { "fire hydrant"@ }
    else if i == 11 { "stop sign"@ }
    else if i == 12 { "parking meter"@ }
    else if i == 13 { "bench"@ }
    else if i == 14 { "bird"@ }
    else if i == 15 { "cat"@ }
    else if i == 16 { "dog"@ }
    else if i == 17 { "horse"@ }
    else if i == 18 { "sheep"@ }
    else if i == 19 { "cow"@ }
    else if i == 20 { "elephant"@ }
    else if i == 21 { "bear"@ }
    else if i == 22 { "zebra"@ }
    else if i == 23 { "giraffe"@ }
    else if i == 24 { "backpack"@ }
    else if i == 25 { "umbrella"@ }
    else if i == 26 { "handbag"@ }
    else if i == 27 { "tie"@ }
    else if i == 28 { "suitcase"@ }
    else if i == 29 { "frisbee"@ }
    else if i == 30 { "skis"@ }
    else if i == 31 { "snowboard"@ }
    else if i == 32 { "sports ball"@ }
    else if i == 33 { "kite"@ }
    else if i == 34 { "baseball bat"@ }
    else if i == 35 { "baseball glove"@ }
    else if i == 36 { "skateboard"@ }
    else if i == 37 { "surfboard"@ }
    else if i == 38 { "tennis racket"@ }
    else if i == 39 { "bottle"@ }
    else if i == 40 { "wine glass"@ }
    else if i == 41 { "cup"@ }
    else if i == 42 { "fork"@ }
    else if i == 43 { "knife"@ }
    else if i == 44 { "spoon"@ }
    else if i == 45 { "bowl"@ }
    else if i == 46 { "banana"@ }
    else if i == 47 { "apple"@ }
    else if i == 48 { "sandwich"@ }
    else if i == 49 { "orange"@ }
    else if i == 50 { "broccoli"@ }
    else if i == 51 { "carrot"@ }
    else if i == 52 { "hot dog"@ }
    else if i == 53 { "pizza"@ }
    else if i == 54 { "donut"@ }
    else if i == 55 { "cake"@ }
    else if i == 56 { "chair"@ }
    else if i == 57 { "sofa"@ }
    else if i == 58 { "pottedplant"@ }
    else if i == 59 { "bed"@ }
    else if i == 60 { "diningtable"@ }
    else if i == 61 { "toilet"@ }
    else if i == 62 { "tvmonitor"@ }
    else if i == 63 { "laptop"@ }
    else if i == 64 { "mouse"@ }
    else if i == 65 { "remote"@ }
    else if i == 66 { "keyboard"@ }
    else if i == 67 { "cell phone"@ }
    else if i == 68 { "microwave"@ }
    else if i == 69 { "oven"@ }
    else if i == 70 { "toaster"@ }
    else if i == 71 { "sink"@ }
    else if i == 72 { "refrigerator"@ }
    else if i == 73 { "book"@ }
    else if i == 74 { "clock"@ }
    else if i == 75 { "vase"@ }
    else if i == 76 { "scissors"@ }
    else if i == 77 { "teddy bear"@ }
    else if i == 78 { "hair drier"@ }
    else { "toothbrush"@ }
}

/// The name of class `i`, looked up in the table.
pub fn class_name(i: usize) -> (r: &'static str)
    requires
        i < CLASS_COUNT,
    ensures
        r@ == spec_class_name(i as int),
{
    match i {
        0 => "person",
        1 => "bicycle",
        2 => "car",
        3 => "motorbike",
        4 => "aeroplane",
        5 => "bus",
        6 => "train",
        7 => "truck",
        8 => "boat",
        9 => "traffic light",
        10 => "fire hydrant",
        11 => "stop sign",
        12 => "parking meter",
        13 => "bench",
        14 => "bird",
        15 => "cat",
        16 => "dog",
        17 => "horse",
        18 => "sheep",
        19 => "cow",
        20 => "elephant",
        21 => "bear",
        22 => "zebra",
        23 => "giraffe",
        24 => "backpack",
        25 => "umbrella",
        26 => "handbag",
        27 => "tie",
        28 => "suitcase",
        29 => "frisbee",
        30 => "skis",
        31 => "snowboard",
        32 => "sports ball",
        33 => "kite",
        34 => "baseball bat",
        35 => "baseball glove",
        36 => "skateboard",
        37 => "surfboard",
        38 => "tennis racket",
        39 => "bottle",
        40 => "wine glass",
        41 => "cup",
        42 => "fork",
        43 => "knife",
        44 => "spoon",
        45 => "bowl",
        46 => "banana",
        47 => "apple",
        48 => "sandwich",
        49 => "orange",
        50 => "broccoli",
        51 => "carrot",
        52 => "hot dog",
        53 => "pizza",
        54 => "donut",
        55 => "cake",
        56 => "chair",
        57 => "sofa",
        58 => "pottedplant",
        59 => "bed",
        60 => "diningtable",
        61 => "toilet",
        62 => "tvmonitor",
        63 => "laptop",
        64 => "mouse",
        65 => "remote",
        66 => "keyboard",
        67 => "cell phone",
        68 => "microwave",
        69 => "oven",
        70 => "toaster",
        71 => "sink",
        72 => "refrigerator",
        73 => "book",
        74 => "clock",
        75 => "vase",
        76 => "scissors",
        77 => "teddy bear",
        78 => "hair drier",
        _ => "toothbrush",
    }
}

} // verus!
